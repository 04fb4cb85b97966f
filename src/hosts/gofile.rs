//! Gofile: a multi-step provider. It authenticates once per run, lists
//! the upload servers for every file, keeps a public folder in the session,
//! and gives each file a folder of its own unless the config asks for one
//! folder for the whole run.
pub mod structs;

use crate::client::{
    done_err, one_pair, two_pairs, unexpected_reply, unexpected_reply_text, Exchange,
    Expect, FilePart, HttpRequest, Payload, PayloadView, Reply, RequestView, Step, StepView, Verb,
};
use crate::hosts::errors::{BadAPIResponseError, ErrorView, UploadError};
use crate::hosts::gofile::structs::{CreateFolderPost, FolderAttributesPut};
use crate::hosts::utils::{get_config_val, get_section_or_empty, get_session_val, session_set, set_session_val};
use crate::maps::{value_or_empty, NestedMap};
use vstd::prelude::*;
use vstd::string::StringExecFns;

verus! {

/// Which exchange the provider waits on, with what it has learnt so far.
pub enum GofileState {
    /// Asking for a guest account.
    Account { per_file: bool },
    /// Asking which server takes the upload.
    Servers { token: String, root: String, per_file: bool },
    /// Creating a folder under the root folder; `cache` marks the folder
    /// kept in the session, as opposed to one for this file only.
    CreateFolder { token: String, root: String, server: String, per_file: bool, cache: bool },
    /// Making the new folder public.
    SetPublic { token: String, root: String, server: String, folder: String, per_file: bool, cache: bool },
    /// Sending the file into `folder` on `server`.
    Upload { token: String, server: String, folder: String },
}

pub enum GofileStateView {
    Account { per_file: bool },
    Servers { token: Seq<char>, root: Seq<char>, per_file: bool },
    CreateFolder { token: Seq<char>, root: Seq<char>, server: Seq<char>, per_file: bool, cache: bool },
    SetPublic {
        token: Seq<char>,
        root: Seq<char>,
        server: Seq<char>,
        folder: Seq<char>,
        per_file: bool,
        cache: bool,
    },
    Upload { token: Seq<char>, server: Seq<char>, folder: Seq<char> },
}

impl View for GofileState {
    type V = GofileStateView;

    open spec fn view(&self) -> GofileStateView {
        match self {
            GofileState::Account { per_file } => GofileStateView::Account { per_file: *per_file },
            GofileState::Servers { token, root, per_file } => GofileStateView::Servers {
                token: token@,
                root: root@,
                per_file: *per_file,
            },
            GofileState::CreateFolder { token, root, server, per_file, cache } => GofileStateView::CreateFolder {
                token: token@,
                root: root@,
                server: server@,
                per_file: *per_file,
                cache: *cache,
            },
            GofileState::SetPublic { token, root, server, folder, per_file, cache } => GofileStateView::SetPublic {
                token: token@,
                root: root@,
                server: server@,
                folder: folder@,
                per_file: *per_file,
                cache: *cache,
            },
            GofileState::Upload { token, server, folder } => GofileStateView::Upload {
                token: token@,
                server: server@,
                folder: folder@,
            },
        }
    }
}

pub type Sections = Map<Seq<char>, Map<Seq<char>, Seq<char>>>;

/// The config section and the session part of this host.
pub open spec fn host() -> Seq<char> {
    "gofile"@
}

/// Every file gets a folder of its own unless `aio_upload` is exactly "y".
pub open spec fn per_file_folders(cfg: Sections) -> bool {
    value_or_empty(cfg, host(), "aio_upload"@) != "y"@
}

/// The first exchange: the account call when no token is cached, else the
/// server listing with the cached token and root folder.
pub open spec fn start_model(cfg: Sections, s: Sections) -> GofileStateView {
    let token = value_or_empty(s, host(), "token"@);
    if token.len() == 0 {
        GofileStateView::Account { per_file: per_file_folders(cfg) }
    } else {
        GofileStateView::Servers {
            token,
            root: value_or_empty(s, host(), "root_folder"@),
            per_file: per_file_folders(cfg),
        }
    }
}

pub open spec fn no_server_text() -> Seq<char> {
    "no upload server listed"@
}

/// What follows a public folder: the folder kept in the session is followed
/// by one for this file in per-file mode; otherwise the file goes into it.
pub open spec fn after_public(
    token: Seq<char>,
    root: Seq<char>,
    server: Seq<char>,
    folder: Seq<char>,
    per_file: bool,
    cache: bool,
) -> GofileStateView {
    if cache && per_file {
        GofileStateView::CreateFolder { token, root, server, per_file, cache: false }
    } else {
        GofileStateView::Upload { token, server, folder }
    }
}

/// The session store and the next step after `reply` arrives in `st`.
pub open spec fn resume_model(st: GofileStateView, reply: Reply, s: Sections) -> (Sections, StepView<GofileStateView>) {
    let unexpected = (s, done_err(ErrorView::Parse(unexpected_reply_text())));
    let bad = (s, done_err(ErrorView::BadApiResponse));
    match reply {
        Reply::Failed(e) => (s, done_err(e@)),
        Reply::Account(a) => match st {
            GofileStateView::Account { per_file } => if a.status@ != "ok"@ {
                bad
            } else {
                let token = "Bearer "@ + a.data.token@;
                let root = a.data.root_folder@;
                (
                    session_set(session_set(s, host(), "token"@, token), host(), "root_folder"@, root),
                    StepView::Next(GofileStateView::Servers { token, root, per_file }),
                )
            },
            _ => unexpected,
        },
        Reply::Servers(r) => match st {
            GofileStateView::Servers { token, root, per_file } => if r.status@ != "ok"@ {
                bad
            } else if r.data.servers@.len() == 0 {
                (s, done_err(ErrorView::Parse(no_server_text())))
            } else {
                let server = r.data.servers@[0].name@;
                let folder = value_or_empty(s, host(), "folder_id"@);
                if folder.len() == 0 {
                    (s, StepView::Next(GofileStateView::CreateFolder { token, root, server, per_file, cache: true }))
                } else if per_file {
                    (s, StepView::Next(GofileStateView::CreateFolder { token, root, server, per_file, cache: false }))
                } else {
                    (s, StepView::Next(GofileStateView::Upload { token, server, folder }))
                }
            },
            _ => unexpected,
        },
        Reply::Folder(f) => match st {
            GofileStateView::CreateFolder { token, root, server, per_file, cache } => if f.status@ != "ok"@ {
                bad
            } else {
                (s, StepView::Next(GofileStateView::SetPublic { token, root, server, folder: f.data.id@, per_file, cache }))
            },
            GofileStateView::SetPublic { token, root, server, folder, per_file, cache } => if f.status@ != "ok"@ {
                bad
            } else {
                (
                    if cache { session_set(s, host(), "folder_id"@, folder) } else { s },
                    StepView::Next(after_public(token, root, server, folder, per_file, cache)),
                )
            },
            _ => unexpected,
        },
        Reply::GofileUpload(u) => match st {
            GofileStateView::Upload { .. } => if u.status@ != "ok"@ {
                bad
            } else {
                (s, StepView::Done(Ok(u.data.download_page@)))
            },
            _ => unexpected,
        },
        _ => unexpected,
    }
}

fn is_ok(status: &String) -> (r: bool)
    ensures
        r == (status@ == "ok"@),
{
    *status == String::from_str("ok")
}

fn bad_response<S>() -> (r: Step<S>)
    ensures
        r matches Step::Done(Err(e)) && e@ == ErrorView::BadApiResponse,
{
    Step::Done(Err(UploadError::BadApiResponse(BadAPIResponseError)))
}

/// The first exchange for a file.
pub fn start(cfg: &NestedMap, s: &NestedMap) -> (r: GofileState)
    requires
        cfg.wf(),
        s.wf(),
    ensures
        r@ == start_model(cfg@, s@),
{
    let token = get_session_val(s, "gofile", "token");
    let root = get_session_val(s, "gofile", "root_folder");
    let section = get_section_or_empty(cfg, "gofile");
    let aio = match get_config_val(&section, "aio_upload", false) {
        Ok(v) => v,
        Err(_) => String::new(),
    };
    let per_file = !(aio == String::from_str("y"));
    proof {
        reveal_strlit("y");
        let stored = value_or_empty(cfg@, host(), "aio_upload"@);
        if stored.len() == 0 {
            assert(stored != "y"@);
            assert(aio@.len() == 0);
            assert(aio@ != "y"@);
        } else {
            assert(aio@ == stored);
        }
    }
    if token.unicode_len() == 0 {
        GofileState::Account { per_file }
    } else {
        GofileState::Servers { token, root, per_file }
    }
}

/// The step that follows `reply` to the exchange of `state`.
pub fn resume(state: GofileState, reply: Reply, s: &mut NestedMap) -> (r: Step<GofileState>)
    requires
        old(s).wf(),
    ensures
        final(s).wf(),
        (final(s)@, r@) == resume_model(state@, reply, old(s)@),
{
    match reply {
        Reply::Failed(e) => Step::Done(Err(e)),
        Reply::Account(a) => match state {
            GofileState::Account { per_file } => {
                if !is_ok(&a.status) {
                    return bad_response();
                }
                let token = String::from_str("Bearer ").concat(a.data.token.as_str());
                let root = a.data.root_folder;
                set_session_val(s, "gofile", "token", token.as_str());
                set_session_val(s, "gofile", "root_folder", root.as_str());
                Step::Next(GofileState::Servers { token, root, per_file })
            },
            _ => Step::Done(Err(unexpected_reply())),
        },
        Reply::Servers(r) => match state {
            GofileState::Servers { token, root, per_file } => {
                if !is_ok(&r.status) {
                    return bad_response();
                }
                if r.data.servers.len() == 0 {
                    return Step::Done(Err(UploadError::Parse(String::from_str("no upload server listed"))));
                }
                let server = r.data.servers[0].name.clone();
                let folder = get_session_val(s, "gofile", "folder_id");
                if folder.unicode_len() == 0 {
                    Step::Next(GofileState::CreateFolder { token, root, server, per_file, cache: true })
                } else if per_file {
                    Step::Next(GofileState::CreateFolder { token, root, server, per_file, cache: false })
                } else {
                    Step::Next(GofileState::Upload { token, server, folder })
                }
            },
            _ => Step::Done(Err(unexpected_reply())),
        },
        Reply::Folder(f) => match state {
            GofileState::CreateFolder { token, root, server, per_file, cache } => {
                if !is_ok(&f.status) {
                    return bad_response();
                }
                Step::Next(GofileState::SetPublic { token, root, server, folder: f.data.id, per_file, cache })
            },
            GofileState::SetPublic { token, root, server, folder, per_file, cache } => {
                if !is_ok(&f.status) {
                    return bad_response();
                }
                if cache {
                    set_session_val(s, "gofile", "folder_id", folder.as_str());
                }
                if cache && per_file {
                    Step::Next(GofileState::CreateFolder { token, root, server, per_file, cache: false })
                } else {
                    Step::Next(GofileState::Upload { token, server, folder })
                }
            },
            _ => Step::Done(Err(unexpected_reply())),
        },
        Reply::GofileUpload(u) => match state {
            GofileState::Upload { .. } => {
                if !is_ok(&u.status) {
                    return bad_response();
                }
                Step::Done(Ok(u.data.download_page))
            },
            _ => Step::Done(Err(unexpected_reply())),
        },
        _ => Step::Done(Err(unexpected_reply())),
    }
}

/// The headers of every call: the referer, and the token once there is one.
pub open spec fn headers_model(token: Option<Seq<char>>) -> Seq<(Seq<char>, Seq<char>)> {
    match token {
        None => seq![("referer"@, "https://gofile.io/"@)],
        Some(t) => seq![("referer"@, "https://gofile.io/"@), ("authorization"@, t)],
    }
}

/// The HTTP request that the exchange of `st` makes.
pub open spec fn request_model(st: GofileStateView, file_path: Seq<char>) -> RequestView {
    match st {
        GofileStateView::Account { .. } => RequestView {
            verb: Verb::Post,
            url: "https://api.gofile.io/accounts"@,
            headers: headers_model(None),
            cookies: None,
            payload: PayloadView::Empty,
        },
        GofileStateView::Servers { .. } => RequestView {
            verb: Verb::Get,
            url: "https://api.gofile.io/servers"@,
            headers: headers_model(None),
            cookies: None,
            payload: PayloadView::Empty,
        },
        GofileStateView::CreateFolder { token, root, .. } => RequestView {
            verb: Verb::Post,
            url: "https://api.gofile.io/contents/createfolder"@,
            headers: headers_model(Some(token)),
            cookies: None,
            payload: PayloadView::CreateFolder { parent_folder_id: root },
        },
        GofileStateView::SetPublic { token, folder, .. } => RequestView {
            verb: Verb::Put,
            url: "https://api.gofile.io/contents/"@ + folder + "/update"@,
            headers: headers_model(Some(token)),
            cookies: None,
            payload: PayloadView::FolderAttributes { attribute: "public"@, attribute_value: "true"@ },
        },
        GofileStateView::Upload { token, server, folder } => RequestView {
            verb: Verb::Post,
            url: "https://"@ + server + ".gofile.io/contents/uploadFile"@,
            headers: headers_model(Some(token)),
            cookies: None,
            payload: PayloadView::File {
                field_name: "file"@,
                file_path,
                fields: seq![("folderId"@, folder)],
            },
        },
    }
}

pub open spec fn expect_model(st: GofileStateView) -> Expect {
    match st {
        GofileStateView::Account { .. } => Expect::Account,
        GofileStateView::Servers { .. } => Expect::Servers,
        GofileStateView::CreateFolder { .. } => Expect::Folder,
        GofileStateView::SetPublic { .. } => Expect::Folder,
        GofileStateView::Upload { .. } => Expect::GofileUpload,
    }
}

impl GofileState {
    /// The exchange to make in this state; `file_path` is the file to send.
    pub fn exchange(&self, file_path: &str) -> (r: Exchange)
        ensures
            r.request@ == request_model(self@, file_path@),
            r.expect == expect_model(self@),
    {
        match self {
            GofileState::Account { .. } => Exchange {
                request: HttpRequest {
                    verb: Verb::Post,
                    url: String::from_str("https://api.gofile.io/accounts"),
                    headers: one_pair("referer", "https://gofile.io/"),
                    cookies: None,
                    payload: Payload::Empty,
                },
                expect: Expect::Account,
            },
            GofileState::Servers { .. } => Exchange {
                request: HttpRequest {
                    verb: Verb::Get,
                    url: String::from_str("https://api.gofile.io/servers"),
                    headers: one_pair("referer", "https://gofile.io/"),
                    cookies: None,
                    payload: Payload::Empty,
                },
                expect: Expect::Servers,
            },
            GofileState::CreateFolder { token, root, .. } => Exchange {
                request: HttpRequest {
                    verb: Verb::Post,
                    url: String::from_str("https://api.gofile.io/contents/createfolder"),
                    headers: two_pairs("referer", "https://gofile.io/", "authorization", token.as_str()),
                    cookies: None,
                    payload: Payload::CreateFolder(CreateFolderPost { parent_folder_id: root.clone() }),
                },
                expect: Expect::Folder,
            },
            GofileState::SetPublic { token, folder, .. } => Exchange {
                request: HttpRequest {
                    verb: Verb::Put,
                    url: String::from_str("https://api.gofile.io/contents/").concat(folder.as_str()).concat("/update"),
                    headers: two_pairs("referer", "https://gofile.io/", "authorization", token.as_str()),
                    cookies: None,
                    payload: Payload::FolderAttributes(
                        FolderAttributesPut {
                            attribute: String::from_str("public"),
                            attribute_value: String::from_str("true"),
                        },
                    ),
                },
                expect: Expect::Folder,
            },
            GofileState::Upload { token, server, folder } => Exchange {
                request: HttpRequest {
                    verb: Verb::Post,
                    url: String::from_str("https://").concat(server.as_str()).concat(".gofile.io/contents/uploadFile"),
                    headers: two_pairs("referer", "https://gofile.io/", "authorization", token.as_str()),
                    cookies: None,
                    payload: Payload::File(
                        FilePart {
                            field_name: String::from_str("file"),
                            file_path: String::from_str(file_path),
                            fields: one_pair("folderId", folder.as_str()),
                        },
                    ),
                },
                expect: Expect::GofileUpload,
            },
        }
    }
}

/// The states a run passes through, one for each exchange it makes, when
/// the replies arrive in the given order; and the session store it leaves.
pub open spec fn run_trace(st: GofileStateView, replies: Seq<Reply>, s: Sections) -> (Seq<GofileStateView>, Sections)
    decreases replies.len(),
{
    if replies.len() == 0 {
        (seq![st], s)
    } else {
        let (s2, next) = resume_model(st, replies[0], s);
        match next {
            StepView::Next(st2) => {
                let (t, s3) = run_trace(st2, replies.drop_first(), s2);
                (seq![st] + t, s3)
            },
            StepView::Done(_) => (seq![st], s2),
        }
    }
}

/// The order in which a run moves through the kinds of exchange.
pub open spec fn stage(st: GofileStateView) -> int {
    match st {
        GofileStateView::Account { .. } => 0,
        GofileStateView::Servers { .. } => 1,
        GofileStateView::CreateFolder { .. } => 2,
        GofileStateView::SetPublic { .. } => 3,
        GofileStateView::Upload { .. } => 4,
    }
}

/// A state of a run in which one folder serves the whole run.
pub open spec fn single_folder_state(st: GofileStateView) -> bool {
    match st {
        GofileStateView::Account { per_file } => !per_file,
        GofileStateView::Servers { per_file, .. } => !per_file,
        GofileStateView::CreateFolder { per_file, cache, .. } => !per_file && cache,
        GofileStateView::SetPublic { per_file, cache, .. } => !per_file && cache,
        GofileStateView::Upload { .. } => true,
    }
}

pub open spec fn cached_folder(s: Sections) -> Seq<char> {
    value_or_empty(s, host(), "folder_id"@)
}

proof fn lemma_keys_differ()
    ensures
        "token"@ != "folder_id"@,
        "root_folder"@ != "folder_id"@,
{
    reveal_strlit("token");
    reveal_strlit("root_folder");
    reveal_strlit("folder_id");
    assert("token"@.len() != "folder_id"@.len());
    assert("root_folder"@.len() != "folder_id"@.len());
}

/// In single-folder mode a run moves strictly forward through the kinds of
/// exchange, creates no folder while one is cached, and leaves cached the
/// folder it uploads into.
proof fn lemma_single_folder_trace(st: GofileStateView, replies: Seq<Reply>, s: Sections)
    requires
        single_folder_state(st),
        st matches GofileStateView::Upload { folder, .. } ==> cached_folder(s) == folder,
    ensures
        ({
            let (t, s_end) = run_trace(st, replies, s);
            &&& t.len() >= 1
            &&& t[0] == st
            &&& forall|i: int, j: int| 0 <= i < j < t.len() ==> stage(#[trigger] t[i]) < stage(#[trigger] t[j])
            &&& forall|i: int|
                0 <= i < t.len() ==> (#[trigger] t[i] matches GofileStateView::Upload { folder, .. }
                    ==> cached_folder(s_end) == folder)
            &&& (cached_folder(s).len() > 0 && stage(st) != 2 && stage(st) != 3) ==> forall|i: int|
                0 <= i < t.len() ==> stage(#[trigger] t[i]) != 2 && stage(t[i]) != 3
        }),
    decreases replies.len(),
{
    lemma_keys_differ();
    if replies.len() > 0 {
        let (s2, next) = resume_model(st, replies[0], s);
        if let StepView::Next(st2) = next {
            assert(stage(st2) > stage(st));
            assert(single_folder_state(st2));
            lemma_single_folder_trace(st2, replies.drop_first(), s2);
            let (t2, s3) = run_trace(st2, replies.drop_first(), s2);
            let t = seq![st] + t2;
            assert(run_trace(st, replies, s).0 == t);
            assert forall|i: int, j: int| 0 <= i < j < t.len() implies stage(#[trigger] t[i]) < stage(#[trigger] t[j]) by {
                if i > 0 {
                    assert(t[i] == t2[i - 1]);
                    assert(t[j] == t2[j - 1]);
                } else {
                    assert(t[j] == t2[j - 1]);
                    if j > 1 {
                        assert(stage(t2[0]) < stage(t2[j - 1]));
                    }
                }
            }
            assert forall|i: int| 0 <= i < t.len() implies (#[trigger] t[i] matches GofileStateView::Upload {
                folder,
                ..
            } ==> cached_folder(s3) == folder) by {
                if i > 0 {
                    assert(t[i] == t2[i - 1]);
                }
            }
            if cached_folder(s).len() > 0 && stage(st) != 2 && stage(st) != 3 {
                assert(cached_folder(s2) == cached_folder(s));
                assert(stage(st2) != 2 && stage(st2) != 3);
                assert forall|i: int| 0 <= i < t.len() implies stage(#[trigger] t[i]) != 2 && stage(t[i]) != 3 by {
                    if i > 0 {
                        assert(t[i] == t2[i - 1]);
                    }
                }
            }
        }
    }
}

/// With a token, a root folder and a folder id cached and `aio_upload` set
/// to "y", a run lists the servers first, and makes no account call and no
/// folder call.
pub proof fn lemma_cached_run_skips_setup(cfg: Sections, s: Sections, replies: Seq<Reply>)
    requires
        value_or_empty(s, host(), "token"@).len() > 0,
        value_or_empty(s, host(), "root_folder"@).len() > 0,
        cached_folder(s).len() > 0,
        !per_file_folders(cfg),
    ensures
        ({
            let t = run_trace(start_model(cfg, s), replies, s).0;
            &&& t[0] is Servers
            &&& forall|i: int|
                0 <= i < t.len() ==> !(#[trigger] t[i] is Account) && !(t[i] is CreateFolder) && !(
                t[i] is SetPublic)
        }),
{
    lemma_single_folder_trace(start_model(cfg, s), replies, s);
}

/// With `aio_upload` set to "y", a run creates at most one folder, and the
/// folder it uploads into stays cached for the runs that follow.
pub proof fn lemma_single_folder_run(cfg: Sections, s: Sections, replies: Seq<Reply>)
    requires
        !per_file_folders(cfg),
    ensures
        ({
            let (t, s_end) = run_trace(start_model(cfg, s), replies, s);
            &&& forall|i: int, j: int|
                0 <= i < t.len() && 0 <= j < t.len() && #[trigger] t[i] is CreateFolder
                    && #[trigger] t[j] is CreateFolder ==> i == j
            &&& forall|i: int|
                0 <= i < t.len() ==> (#[trigger] t[i] matches GofileStateView::Upload { folder, .. }
                    ==> cached_folder(s_end) == folder)
        }),
{
    let st = start_model(cfg, s);
    lemma_single_folder_trace(st, replies, s);
    let t = run_trace(st, replies, s).0;
    assert forall|i: int, j: int|
        0 <= i < t.len() && 0 <= j < t.len() && #[trigger] t[i] is CreateFolder
            && #[trigger] t[j] is CreateFolder implies i == j by {
        if i < j {
            assert(stage(t[i]) < stage(t[j]));
        } else if j < i {
            assert(stage(t[j]) < stage(t[i]));
        }
    }
}

/// A folder made for the current file only.
pub open spec fn is_own_folder_call(st: GofileStateView) -> bool {
    st matches GofileStateView::CreateFolder { cache, .. } && !cache
}

/// A state of a per-file run; `created` records that this file's own
/// folder has been asked for already.
pub open spec fn per_file_state(st: GofileStateView, created: bool) -> bool {
    match st {
        GofileStateView::Account { per_file } => per_file,
        GofileStateView::Servers { per_file, .. } => per_file,
        GofileStateView::CreateFolder { per_file, .. } => per_file,
        GofileStateView::SetPublic { per_file, cache, .. } => per_file && (!cache ==> created),
        GofileStateView::Upload { .. } => created,
    }
}

proof fn lemma_per_file_trace(st: GofileStateView, created: bool, replies: Seq<Reply>, s: Sections)
    requires
        per_file_state(st, created),
    ensures
        ({
            let t = run_trace(st, replies, s).0;
            &&& t.len() >= 1
            &&& t[0] == st
            &&& forall|i: int|
                0 <= i < t.len() && #[trigger] t[i] is Upload ==> created || exists|j: int|
                    0 <= j < i && is_own_folder_call(#[trigger] t[j])
        }),
    decreases replies.len(),
{
    if replies.len() > 0 {
        let (s2, next) = resume_model(st, replies[0], s);
        if let StepView::Next(st2) = next {
            let created2 = created || is_own_folder_call(st);
            assert(per_file_state(st2, created2));
            lemma_per_file_trace(st2, created2, replies.drop_first(), s2);
            let t2 = run_trace(st2, replies.drop_first(), s2).0;
            let t = seq![st] + t2;
            assert(run_trace(st, replies, s).0 == t);
            assert forall|i: int| 0 <= i < t.len() && #[trigger] t[i] is Upload implies created || exists|j: int|
                0 <= j < i && is_own_folder_call(#[trigger] t[j]) by {
                if i > 0 {
                    assert(t[i] == t2[i - 1]);
                    if !created2 {
                        let j2 = choose|j: int| 0 <= j < i - 1 && is_own_folder_call(#[trigger] t2[j]);
                        assert(t[j2 + 1] == t2[j2]);
                    } else if !created {
                        assert(is_own_folder_call(t[0]));
                    }
                }
            }
        }
    }
}

/// Unless `aio_upload` is "y", every upload of a run follows, in the same
/// run, the creation of a folder for that file alone; so two files uploaded
/// one after the other ask for at least two folders.
pub proof fn lemma_per_file_run(cfg: Sections, s: Sections, replies: Seq<Reply>)
    requires
        per_file_folders(cfg),
    ensures
        ({
            let t = run_trace(start_model(cfg, s), replies, s).0;
            forall|i: int|
                0 <= i < t.len() && #[trigger] t[i] is Upload ==> exists|j: int|
                    0 <= j < i && is_own_folder_call(#[trigger] t[j])
        }),
{
    lemma_per_file_trace(start_model(cfg, s), false, replies, s);
}

/// A state reached only after the servers were listed in this run, when
/// `listed` says so.
pub open spec fn after_listing_state(st: GofileStateView, listed: bool) -> bool {
    match st {
        GofileStateView::Account { .. } => true,
        GofileStateView::Servers { .. } => true,
        _ => listed,
    }
}

proof fn lemma_listing_trace(st: GofileStateView, listed: bool, replies: Seq<Reply>, s: Sections)
    requires
        after_listing_state(st, listed),
    ensures
        ({
            let t = run_trace(st, replies, s).0;
            forall|i: int|
                0 <= i < t.len() && #[trigger] t[i] is Upload ==> listed || exists|j: int|
                    0 <= j < i && #[trigger] t[j] is Servers
        }),
    decreases replies.len(),
{
    if replies.len() > 0 {
        let (s2, next) = resume_model(st, replies[0], s);
        if let StepView::Next(st2) = next {
            let listed2 = listed || st is Servers;
            assert(after_listing_state(st2, listed2));
            lemma_listing_trace(st2, listed2, replies.drop_first(), s2);
            let t2 = run_trace(st2, replies.drop_first(), s2).0;
            let t = seq![st] + t2;
            assert(run_trace(st, replies, s).0 == t);
            assert forall|i: int| 0 <= i < t.len() && #[trigger] t[i] is Upload implies listed || exists|j: int|
                0 <= j < i && #[trigger] t[j] is Servers by {
                if i > 0 {
                    assert(t[i] == t2[i - 1]);
                    if !listed2 {
                        let j2 = choose|j: int| 0 <= j < i - 1 && #[trigger] t2[j] is Servers;
                        assert(t[j2 + 1] == t2[j2]);
                    } else if !listed {
                        assert(t[0] is Servers);
                    }
                }
            }
        }
    }
}

/// The server is never cached: in every run, whatever the session holds,
/// each upload follows a server listing made in that same run.
pub proof fn lemma_every_run_lists_servers(cfg: Sections, s: Sections, replies: Seq<Reply>)
    ensures
        ({
            let t = run_trace(start_model(cfg, s), replies, s).0;
            forall|i: int|
                0 <= i < t.len() && #[trigger] t[i] is Upload ==> exists|j: int|
                    0 <= j < i && #[trigger] t[j] is Servers
        }),
{
    lemma_listing_trace(start_model(cfg, s), false, replies, s);
}

} // verus!
