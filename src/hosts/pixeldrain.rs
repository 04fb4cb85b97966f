//! Pixeldrain: a probe-then-auth provider. It reads the account's size
//! ceiling once per run from the profile page, checks the file against it,
//! and uploads with the account's key as a cookie.
pub mod structs;

use crate::client::{
    done_err, one_pair, pairs_view, unexpected_reply, unexpected_reply_text, Exchange, Expect,
    FilePart, HttpRequest, Payload, PayloadView, Reply, RequestView, Step, StepView, Verb,
};
use crate::hosts::errors::{ErrorView, UploadError};
use crate::hosts::sizes::{digits_value, is_digit, parses_as_usize, trimmed, unsigned_digits, Size};
use crate::hosts::utils::{
    check_file_size_limit, config_value, get_config_val, get_section_or_empty, get_session_val,
    session_set, set_session_val,
};
use crate::maps::{section_or_empty, value_or_empty, NestedMap};
use crate::text::{chars_of, occurs_at, occurs_at_exec};
use vstd::prelude::*;
use vstd::string::{StrSliceExecFns, StringExecFns};

verus! {

pub type Sections = Map<Seq<char>, Map<Seq<char>, Seq<char>>>;

/// The config section and the session part of this host.
pub open spec fn host() -> Seq<char> {
    "pixeldrain"@
}

/// What precedes the size ceiling in the profile page.
pub open spec fn marker() -> Seq<char> {
    "\"file_size_limit\":"@
}

/// The marker occurs at `i` and a digit follows it.
pub open spec fn limit_at(t: Seq<char>, i: int) -> bool {
    occurs_at(t, marker(), i) && i + marker().len() < t.len() && is_digit(t[i + marker().len()])
}

/// The first index from `i` on where `limit_at` holds.
pub open spec fn first_limit_from(t: Seq<char>, i: int) -> Option<int>
    decreases t.len() - i,
{
    if i < 0 || i >= t.len() {
        None
    } else if limit_at(t, i) {
        Some(i)
    } else {
        first_limit_from(t, i + 1)
    }
}

/// The end of the run of digits that starts at `k`.
pub open spec fn digits_end(t: Seq<char>, k: int) -> int
    decreases t.len() - k,
{
    if 0 <= k < t.len() && is_digit(t[k]) {
        digits_end(t, k + 1)
    } else {
        k
    }
}

/// The digits that follow the first marker that digits follow.
pub open spec fn size_limit_field(t: Seq<char>) -> Option<Seq<char>> {
    match first_limit_from(t, 0) {
        Some(i) => Some(t.subrange(i + marker().len(), digits_end(t, i + marker().len()))),
        None => None,
    }
}

proof fn lemma_digits_end_bounds(t: Seq<char>, k: int)
    requires
        0 <= k <= t.len(),
    ensures
        k <= digits_end(t, k) <= t.len(),
    decreases t.len() - k,
{
    if 0 <= k < t.len() && is_digit(t[k]) {
        lemma_digits_end_bounds(t, k + 1);
    }
}

/// The size ceiling written in a profile page: the digits after the first
/// `"file_size_limit":` that digits follow.
pub fn find_size_limit(html: &str) -> (r: Option<String>)
    ensures
        match r {
            Some(v) => size_limit_field(html@) == Some(v@),
            None => size_limit_field(html@) is None,
        },
{
    let t = chars_of(html);
    let m = chars_of("\"file_size_limit\":");
    let n = t.len();
    let mut i: usize = 0;
    while i < n
        invariant
            n == t@.len(),
            t@ == html@,
            m@ == marker(),
            0 <= i <= n,
            first_limit_from(t@, 0) == first_limit_from(t@, i as int),
        decreases n - i,
    {
        if occurs_at_exec(&t, &m, i) && i + m.len() < n && is_digit_exec(t[i + m.len()]) {
            let start = i + m.len();
            let mut k = start;
            proof {
                lemma_digits_end_bounds(t@, start as int);
            }
            while k < n && is_digit_exec(t[k])
                invariant
                    n == t@.len(),
                    start <= k <= n,
                    digits_end(t@, start as int) == digits_end(t@, k as int),
                decreases n - k,
            {
                k = k + 1;
            }
            let v = html.substring_char(start, k);
            return Some(String::from_str(v));
        }
        i = i + 1;
    }
    None
}

fn is_digit_exec(c: char) -> (r: bool)
    ensures
        r == is_digit(c),
{
    '0' <= c && c <= '9'
}

/// Which exchange the provider waits on.
pub enum PixeldrainState {
    /// Reading the size ceiling from the profile page.
    Probe { api_key: String, file_size: usize },
    /// Sending the file.
    Upload { api_key: String },
}

pub enum PixeldrainStateView {
    Probe { api_key: Seq<char>, file_size: usize },
    Upload { api_key: Seq<char> },
}

impl View for PixeldrainState {
    type V = PixeldrainStateView;

    open spec fn view(&self) -> PixeldrainStateView {
        match self {
            PixeldrainState::Probe { api_key, file_size } => PixeldrainStateView::Probe {
                api_key: api_key@,
                file_size: *file_size,
            },
            PixeldrainState::Upload { api_key } => PixeldrainStateView::Upload { api_key: api_key@ },
        }
    }
}

pub open spec fn bad_limit_text() -> Seq<char> {
    "size limit is not a number"@
}

pub open spec fn no_limit_text() -> Seq<char> {
    "failed to extract file size limit from html"@
}

/// Checking the file against the ceiling written as `limit`.
pub open spec fn limit_model(limit: Seq<char>, api_key: Seq<char>, file_size: usize) -> StepView<PixeldrainStateView> {
    let t = trimmed(limit);
    if !parses_as_usize(t) {
        done_err(ErrorView::Parse(bad_limit_text()))
    } else if file_size > digits_value(unsigned_digits(t)) {
        done_err(ErrorView::FileSizeLimit)
    } else {
        StepView::Next(PixeldrainStateView::Upload { api_key })
    }
}

/// The first step: without a key in the session, the key comes from the
/// config (a missing or empty one fails before any exchange) and the
/// ceiling is probed; with one, the cached ceiling is checked.
pub open spec fn start_model(file_size: usize, cfg: Sections, s: Sections) -> StepView<PixeldrainStateView> {
    let api_key = value_or_empty(s, host(), "api_key"@);
    if api_key.len() == 0 {
        match config_value(section_or_empty(cfg, host()), "api_key"@, true) {
            Err(e) => done_err(e),
            Ok(k) => StepView::Next(PixeldrainStateView::Probe { api_key: k, file_size }),
        }
    } else {
        limit_model(value_or_empty(s, host(), "size_limit"@), api_key, file_size)
    }
}

/// The session store and the next step after `reply` arrives in `st`.
pub open spec fn resume_model(st: PixeldrainStateView, reply: Reply, s: Sections) -> (Sections, StepView<PixeldrainStateView>) {
    let unexpected = (s, done_err(ErrorView::Parse(unexpected_reply_text())));
    match reply {
        Reply::Failed(e) => (s, done_err(e@)),
        Reply::Page(html) => match st {
            PixeldrainStateView::Probe { api_key, file_size } => match size_limit_field(html@) {
                None => (s, done_err(ErrorView::Parse(no_limit_text()))),
                Some(limit) => (session_set(s, host(), "size_limit"@, limit), limit_model(limit, api_key, file_size)),
            },
            _ => unexpected,
        },
        Reply::PixeldrainUpload(u) => match st {
            PixeldrainStateView::Upload { .. } => (s, StepView::Done(Ok("https://pixeldrain.com/u/"@ + u.id@))),
            _ => unexpected,
        },
        _ => unexpected,
    }
}

fn check_limit(limit: &str, api_key: String, file_size: usize) -> (r: Step<PixeldrainState>)
    ensures
        r@ == limit_model(limit@, api_key@, file_size),
{
    match Size::custom_from_str(limit) {
        Err(_) => Step::Done(Err(UploadError::Parse(String::from_str("size limit is not a number")))),
        Ok(size) => match check_file_size_limit(file_size, size) {
            Err(e) => Step::Done(Err(UploadError::FileSizeLimit(e))),
            Ok(()) => Step::Next(PixeldrainState::Upload { api_key }),
        },
    }
}

/// The first step for a file of `file_size` bytes.
pub fn start(file_size: usize, cfg: &NestedMap, s: &NestedMap) -> (r: Step<PixeldrainState>)
    requires
        cfg.wf(),
        s.wf(),
    ensures
        r@ == start_model(file_size, cfg@, s@),
{
    let api_key = get_session_val(s, "pixeldrain", "api_key");
    if api_key.unicode_len() == 0 {
        let section = get_section_or_empty(cfg, "pixeldrain");
        match get_config_val(&section, "api_key", true) {
            Err(e) => Step::Done(Err(e)),
            Ok(k) => Step::Next(PixeldrainState::Probe { api_key: k, file_size }),
        }
    } else {
        let limit = get_session_val(s, "pixeldrain", "size_limit");
        check_limit(limit.as_str(), api_key, file_size)
    }
}

/// The step that follows `reply` to the exchange of `state`.
pub fn resume(state: PixeldrainState, reply: Reply, s: &mut NestedMap) -> (r: Step<PixeldrainState>)
    requires
        old(s).wf(),
    ensures
        final(s).wf(),
        (final(s)@, r@) == resume_model(state@, reply, old(s)@),
{
    match reply {
        Reply::Failed(e) => Step::Done(Err(e)),
        Reply::Page(html) => match state {
            PixeldrainState::Probe { api_key, file_size } => match find_size_limit(html.as_str()) {
                None => Step::Done(Err(UploadError::Parse(String::from_str("failed to extract file size limit from html")))),
                Some(limit) => {
                    set_session_val(s, "pixeldrain", "size_limit", limit.as_str());
                    check_limit(limit.as_str(), api_key, file_size)
                },
            },
            _ => Step::Done(Err(unexpected_reply())),
        },
        Reply::PixeldrainUpload(u) => match state {
            PixeldrainState::Upload { .. } => Step::Done(Ok(String::from_str("https://pixeldrain.com/u/").concat(u.id.as_str()))),
            _ => Step::Done(Err(unexpected_reply())),
        },
        _ => Step::Done(Err(unexpected_reply())),
    }
}

/// The HTTP request that the exchange of `st` makes.
pub open spec fn request_model(st: PixeldrainStateView, file_path: Seq<char>) -> RequestView {
    match st {
        PixeldrainStateView::Probe { api_key, .. } => RequestView {
            verb: Verb::Get,
            url: "https://pixeldrain.com/user"@,
            headers: seq![],
            cookies: Some(seq![("pd_auth_key"@, api_key)]),
            payload: PayloadView::Empty,
        },
        PixeldrainStateView::Upload { api_key } => RequestView {
            verb: Verb::Post,
            url: "https://pixeldrain.com/api/file"@,
            headers: seq![("referer"@, "https://pixeldrain.com/"@)],
            cookies: Some(seq![("pd_auth_key"@, api_key)]),
            payload: PayloadView::File { field_name: "file"@, file_path, fields: seq![] },
        },
    }
}

pub open spec fn expect_model(st: PixeldrainStateView) -> Expect {
    match st {
        PixeldrainStateView::Probe { .. } => Expect::Page,
        PixeldrainStateView::Upload { .. } => Expect::PixeldrainUpload,
    }
}

impl PixeldrainState {
    /// The exchange to make in this state; `file_path` is the file to send.
    pub fn exchange(&self, file_path: &str) -> (r: Exchange)
        ensures
            r.request@ == request_model(self@, file_path@),
            r.expect == expect_model(self@),
    {
        let no_pairs: Vec<(String, String)> = Vec::new();
        assert(pairs_view(no_pairs@) =~= seq![]);
        match self {
            PixeldrainState::Probe { api_key, .. } => Exchange {
                request: HttpRequest {
                    verb: Verb::Get,
                    url: String::from_str("https://pixeldrain.com/user"),
                    headers: no_pairs,
                    cookies: Some(one_pair("pd_auth_key", api_key.as_str())),
                    payload: Payload::Empty,
                },
                expect: Expect::Page,
            },
            PixeldrainState::Upload { api_key } => Exchange {
                request: HttpRequest {
                    verb: Verb::Post,
                    url: String::from_str("https://pixeldrain.com/api/file"),
                    headers: one_pair("referer", "https://pixeldrain.com/"),
                    cookies: Some(one_pair("pd_auth_key", api_key.as_str())),
                    payload: Payload::File(
                        FilePart {
                            field_name: String::from_str("file"),
                            file_path: String::from_str(file_path),
                            fields: no_pairs,
                        },
                    ),
                },
                expect: Expect::PixeldrainUpload,
            },
        }
    }
}

} // verus!
