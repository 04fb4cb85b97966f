//! What the transport is asked to do: one HTTP exchange, described as plain
//! values, and the reply decoded from it.
use crate::hosts::errors::{ErrorView, UploadError};
use crate::hosts::fileio::structs::UploadResp as FileioUploadResp;
use crate::hosts::gofile::structs::{
    AccountResp, CreateFolderPost, CreateFolderResp, FolderAttributesPut, GetServersResp,
    UploadResp as GofileUploadResp,
};
use crate::hosts::pixeldrain::structs::UploadResp as PixeldrainUploadResp;
use crate::utils::{file_name_of, get_fname_string_from_path};
use vstd::prelude::*;
use vstd::string::StringExecFns;

verus! {

/// Sent as the User-Agent of every request.
pub const CLIENT_USER_AGENT: &'static str =
    "Mozilla/5.0 (Windows NT 10.0; Win64; x64) AppleWebKit/537.36 (KHTML, like Gecko) Chrome/128.0.0.0 Safari/537.36";

#[derive(Clone, Copy, Debug, PartialEq, Eq, Structural)]
pub enum Verb {
    Get,
    Post,
    Put,
}

/// The file sent as one multipart field, with extra plain-text fields.
pub struct FilePart {
    pub field_name: String,
    pub file_path: String,
    pub fields: Vec<(String, String)>,
}

pub enum Payload {
    /// No body; sent as `text/plain`.
    Empty,
    CreateFolder(CreateFolderPost),
    FolderAttributes(FolderAttributesPut),
    File(FilePart),
}

pub struct HttpRequest {
    pub verb: Verb,
    pub url: String,
    pub headers: Vec<(String, String)>,
    pub cookies: Option<Vec<(String, String)>>,
    pub payload: Payload,
}

/// How the body of a successful answer is to be decoded.
#[derive(Clone, Copy, Debug, PartialEq, Eq, Structural)]
pub enum Expect {
    FileioUpload,
    Account,
    Servers,
    Folder,
    GofileUpload,
    Page,
    PixeldrainUpload,
}

pub struct Exchange {
    pub request: HttpRequest,
    pub expect: Expect,
}

/// The outcome of one exchange: the decoded body, or why there is none.
pub enum Reply {
    FileioUpload(FileioUploadResp),
    Account(AccountResp),
    Servers(GetServersResp),
    Folder(CreateFolderResp),
    GofileUpload(GofileUploadResp),
    Page(String),
    PixeldrainUpload(PixeldrainUploadResp),
    Failed(UploadError),
}

/// A provider's next move: another exchange to make from a state, or the
/// end of its attempt on the file.
pub enum Step<S> {
    Next(S),
    Done(Result<String, UploadError>),
}

pub enum StepView<V> {
    Next(V),
    Done(Result<Seq<char>, ErrorView>),
}

impl<S: View> View for Step<S> {
    type V = StepView<S::V>;

    open spec fn view(&self) -> StepView<S::V> {
        match self {
            Step::Next(s) => StepView::Next(s@),
            Step::Done(Ok(u)) => StepView::Done(Ok(u@)),
            Step::Done(Err(e)) => StepView::Done(Err(e@)),
        }
    }
}

pub open spec fn done_err<V>(e: ErrorView) -> StepView<V> {
    StepView::Done(Err(e))
}

/// The text of the error for a reply of another kind than the one asked for.
pub open spec fn unexpected_reply_text() -> Seq<char> {
    "unexpected reply"@
}

pub fn unexpected_reply() -> (r: UploadError)
    ensures
        r@ == ErrorView::Parse(unexpected_reply_text()),
{
    UploadError::Parse(String::from_str("unexpected reply"))
}

/// A list of name/value pairs, as plain values.
pub open spec fn pairs_view(v: Seq<(String, String)>) -> Seq<(Seq<char>, Seq<char>)> {
    v.map_values(|p: (String, String)| (p.0@, p.1@))
}

pub enum PayloadView {
    Empty,
    CreateFolder { parent_folder_id: Seq<char> },
    FolderAttributes { attribute: Seq<char>, attribute_value: Seq<char> },
    File { field_name: Seq<char>, file_path: Seq<char>, fields: Seq<(Seq<char>, Seq<char>)> },
}

pub struct RequestView {
    pub verb: Verb,
    pub url: Seq<char>,
    pub headers: Seq<(Seq<char>, Seq<char>)>,
    pub cookies: Option<Seq<(Seq<char>, Seq<char>)>>,
    pub payload: PayloadView,
}

impl View for HttpRequest {
    type V = RequestView;

    open spec fn view(&self) -> RequestView {
        RequestView {
            verb: self.verb,
            url: self.url@,
            headers: pairs_view(self.headers@),
            cookies: match self.cookies {
                Some(c) => Some(pairs_view(c@)),
                None => None,
            },
            payload: match self.payload {
                Payload::Empty => PayloadView::Empty,
                Payload::CreateFolder(b) => PayloadView::CreateFolder { parent_folder_id: b.parent_folder_id@ },
                Payload::FolderAttributes(b) => PayloadView::FolderAttributes {
                    attribute: b.attribute@,
                    attribute_value: b.attribute_value@,
                },
                Payload::File(f) => PayloadView::File {
                    field_name: f.field_name@,
                    file_path: f.file_path@,
                    fields: pairs_view(f.fields@),
                },
            },
        }
    }
}

/// A one-pair list.
pub fn one_pair(name: &str, value: &str) -> (r: Vec<(String, String)>)
    ensures
        pairs_view(r@) == seq![(name@, value@)],
{
    let mut r: Vec<(String, String)> = Vec::new();
    r.push((String::from_str(name), String::from_str(value)));
    assert(pairs_view(r@) =~= seq![(name@, value@)]);
    r
}

/// A two-pair list.
pub fn two_pairs(name1: &str, value1: &str, name2: &str, value2: &str) -> (r: Vec<(String, String)>)
    ensures
        pairs_view(r@) == seq![(name1@, value1@), (name2@, value2@)],
{
    let mut r: Vec<(String, String)> = Vec::new();
    r.push((String::from_str(name1), String::from_str(value1)));
    r.push((String::from_str(name2), String::from_str(value2)));
    assert(pairs_view(r@) =~= seq![(name1@, value1@), (name2@, value2@)]);
    r
}

/// The `Cookie` header for a list of cookies: `name=value` pairs joined by `; `.
pub open spec fn cookie_text(c: Seq<(Seq<char>, Seq<char>)>) -> Seq<char>
    decreases c.len(),
{
    if c.len() == 0 {
        seq![]
    } else if c.len() == 1 {
        c[0].0 + "="@ + c[0].1
    } else {
        cookie_text(c.drop_last()) + "; "@ + c.last().0 + "="@ + c.last().1
    }
}

pub fn cookie_header(cookies: &Vec<(String, String)>) -> (r: String)
    ensures
        r@ == cookie_text(pairs_view(cookies@)),
{
    let mut r = String::new();
    let mut i: usize = 0;
    while i < cookies.len()
        invariant
            0 <= i <= cookies@.len(),
            r@ == cookie_text(pairs_view(cookies@.subrange(0, i as int))),
        decreases cookies@.len() - i,
    {
        if i > 0 {
            r.append("; ");
        }
        r.append(cookies[i].0.as_str());
        r.append("=");
        r.append(cookies[i].1.as_str());
        proof {
            let c = pairs_view(cookies@.subrange(0, i + 1));
            assert(c.drop_last() =~= pairs_view(cookies@.subrange(0, i as int)));
            assert(c.last() == (cookies@[i as int].0@, cookies@[i as int].1@));
            assert(r@ =~= cookie_text(c));
        }
        i = i + 1;
    }
    assert(cookies@.subrange(0, cookies@.len() as int) =~= cookies@);
    r
}

/// The first MIME type that mime_guess lists for a file name's extension.
pub uninterp spec fn mime_guess_of(file_name: Seq<char>) -> Option<Seq<char>>;

/// Relies on `mime_guess::from_path(..).first_raw()`: the first MIME type
/// known for the extension, or none.
#[verifier::external_body]
fn first_mime_guess(file_name: &str) -> (r: Option<String>)
    ensures
        r is None <==> mime_guess_of(file_name@) is None,
        r matches Some(m) ==> mime_guess_of(file_name@) == Some(m@),
{
    match mime_guess::from_path(file_name).first_raw() {
        Some(m) => Some(m.to_string()),
        None => None,
    }
}

pub open spec fn mime_type_model(file_name: Seq<char>) -> Seq<char> {
    match mime_guess_of(file_name) {
        Some(m) => m,
        None => "application/octet-stream"@,
    }
}

/// The MIME type of a part, guessed from the file name's extension, with
/// `application/octet-stream` when nothing is known.
pub fn mime_type_of(file_name: &str) -> (r: String)
    ensures
        r@ == mime_type_model(file_name@),
{
    match first_mime_guess(file_name) {
        Some(m) => m,
        None => String::from_str("application/octet-stream"),
    }
}

/// How a multipart file part is labelled: its file name and MIME type.
pub struct PartLabel {
    pub file_name: String,
    pub mime: String,
}

pub fn part_label(path: &str) -> (r: Result<PartLabel, String>)
    ensures
        r matches Ok(l) ==> file_name_of(path@) == Some(l.file_name@) && l.mime@ == mime_type_model(l.file_name@),
        r is Err <==> file_name_of(path@) is None,
{
    match get_fname_string_from_path(path) {
        Ok(file_name) => {
            let mime = mime_type_of(file_name.as_str());
            Ok(PartLabel { file_name, mime })
        },
        Err(m) => Err(m),
    }
}

/// The bytes of a file read so far during one upload, and whether its
/// progress display has been finished.
pub struct Progress {
    total: u64,
    position: u64,
    finished: bool,
}

impl Progress {
    pub closed spec fn spec_total(&self) -> u64 {
        self.total
    }

    pub closed spec fn spec_position(&self) -> u64 {
        self.position
    }

    pub closed spec fn is_finished(&self) -> bool {
        self.finished
    }

    pub fn new(total: u64) -> (r: Progress)
        ensures
            r.spec_total() == total,
            r.spec_position() == 0,
            !r.is_finished(),
    {
        Progress { total, position: 0, finished: false }
    }

    pub fn total(&self) -> (r: u64)
        ensures
            r == self.spec_total(),
    {
        self.total
    }

    pub fn position(&self) -> (r: u64)
        ensures
            r == self.spec_position(),
    {
        self.position
    }

    /// Counts `n` more bytes read; the count stops at `u64::MAX`.
    pub fn advance(&mut self, n: usize)
        ensures
            final(self).spec_position() == if old(self).spec_position() as int + n as int > u64::MAX {
                u64::MAX as int
            } else {
                old(self).spec_position() as int + n as int
            },
            final(self).spec_total() == old(self).spec_total(),
            final(self).is_finished() == old(self).is_finished(),
    {
        self.position = self.position.saturating_add(n as u64);
    }

    /// Marks the display finished; true only on the first call, so that the
    /// display is finalized exactly once.
    pub fn finish(&mut self) -> (first: bool)
        ensures
            first == !old(self).is_finished(),
            final(self).is_finished(),
            final(self).spec_position() == old(self).spec_position(),
            final(self).spec_total() == old(self).spec_total(),
    {
        let first = !self.finished;
        self.finished = true;
        first
    }
}

} // verus!
