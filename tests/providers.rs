use uploader::client::{Expect, Payload, Reply, Step, Verb};
use uploader::hosts::dispatch::{self, HostState};
use uploader::hosts::enums::Host;
use uploader::hosts::errors::UploadError;
use uploader::hosts::fileio::structs::UploadResp as FileioUploadResp;
use uploader::hosts::fileio::{self, FileioState};
use uploader::hosts::gofile::structs::{
    AccountData, AccountResp, CreateFolderData, CreateFolderResp, GetServersData, GetServersResp,
    Server, UploadData, UploadResp as GofileUploadResp,
};
use uploader::hosts::gofile::{self, GofileState};
use uploader::hosts::pixeldrain::structs::UploadResp as PixeldrainUploadResp;
use uploader::hosts::pixeldrain::{self, PixeldrainState};
use uploader::hosts::utils::{get_session_val, set_session_val};
use uploader::maps::{NestedMap, StrMap};

fn config(host: &str, pairs: &[(&str, &str)]) -> NestedMap {
    let mut section = StrMap::new();
    for (k, v) in pairs {
        section.insert(k.to_string(), v.to_string());
    }
    let mut cfg = NestedMap::new();
    cfg.insert_section(host.to_string(), section);
    cfg
}

fn fileio_answer(success: bool, link: &str) -> Reply {
    Reply::FileioUpload(FileioUploadResp { link: link.to_string(), success })
}

#[test]
fn fileio_scenario_success() {
    let st = match fileio::start(500_000_000) {
        Step::Next(st) => st,
        Step::Done(_) => panic!("a 500 MB file is under the 2 GB ceiling"),
    };
    match fileio::resume(st, fileio_answer(true, "https://x/1")) {
        Step::Done(Ok(url)) => assert_eq!(url, "https://x/1"),
        _ => panic!("expected the link"),
    }
}

#[test]
fn fileio_scenario_reported_failure() {
    match fileio::resume(FileioState::Upload, fileio_answer(false, "")) {
        Step::Done(Err(UploadError::BadApiResponse(_))) => {},
        _ => panic!("expected a reported failure"),
    }
}

#[test]
fn fileio_too_large() {
    match fileio::start(2_000_000_001) {
        Step::Done(Err(UploadError::FileSizeLimit(_))) => {},
        _ => panic!("expected the size ceiling"),
    }
}

#[test]
fn fileio_request_shape() {
    let ex = FileioState::Upload.exchange("/d/a.bin");
    assert_eq!(ex.request.verb, Verb::Post);
    assert_eq!(ex.request.url, "https://file.io");
    assert!(ex.request.headers.is_empty());
    assert!(ex.request.cookies.is_none());
    assert_eq!(ex.expect, Expect::FileioUpload);
    match ex.request.payload {
        Payload::File(f) => {
            assert_eq!(f.field_name, "file");
            assert_eq!(f.file_path, "/d/a.bin");
            assert!(f.fields.is_empty());
        },
        _ => panic!("expected a file part"),
    }
}

#[test]
fn transport_failure_ends_the_attempt() {
    match fileio::resume(FileioState::Upload, Reply::Failed(UploadError::Transport("404".to_string()))) {
        Step::Done(Err(UploadError::Transport(m))) => assert_eq!(m, "404"),
        _ => panic!("expected the transport error"),
    }
}

#[test]
fn pixeldrain_missing_key_fails_before_any_call() {
    let cfg = NestedMap::new();
    let s = NestedMap::new();
    match pixeldrain::start(10, &cfg, &s) {
        Step::Done(Err(UploadError::KeyMissing(e))) => assert_eq!(e.key_name(), "api_key"),
        _ => panic!("expected a config error and no exchange"),
    }
}

#[test]
fn pixeldrain_empty_key_fails_before_any_call() {
    let cfg = config("pixeldrain", &[("api_key", "")]);
    let s = NestedMap::new();
    match pixeldrain::start(10, &cfg, &s) {
        Step::Done(Err(e)) => assert!(e.is_fatal()),
        _ => panic!("expected a config error and no exchange"),
    }
}

#[test]
fn pixeldrain_probe_then_upload() {
    let cfg = config("pixeldrain", &[("api_key", "k1")]);
    let mut s = NestedMap::new();
    let st = match pixeldrain::start(1000, &cfg, &s) {
        Step::Next(st) => st,
        _ => panic!("expected the probe"),
    };
    let ex = st.exchange("/d/a.png");
    assert_eq!(ex.request.url, "https://pixeldrain.com/user");
    assert_eq!(ex.request.cookies.as_ref().unwrap()[0], ("pd_auth_key".to_string(), "k1".to_string()));
    let page = Reply::Page("x \"file_size_limit\":5000 y".to_string());
    let st = match pixeldrain::resume(st, page, &mut s) {
        Step::Next(st) => st,
        _ => panic!("expected the upload"),
    };
    assert_eq!(get_session_val(&s, "pixeldrain", "size_limit"), "5000");
    let ex = st.exchange("/d/a.png");
    assert_eq!(ex.request.url, "https://pixeldrain.com/api/file");
    assert_eq!(ex.request.headers[0], ("referer".to_string(), "https://pixeldrain.com/".to_string()));
    let answer = Reply::PixeldrainUpload(PixeldrainUploadResp { id: "abc".to_string() });
    match pixeldrain::resume(st, answer, &mut s) {
        Step::Done(Ok(url)) => assert_eq!(url, "https://pixeldrain.com/u/abc"),
        _ => panic!("expected the share link"),
    }
}

#[test]
fn pixeldrain_over_probed_limit() {
    let mut s = NestedMap::new();
    let st = PixeldrainState::Probe { api_key: "k".to_string(), file_size: 5001 };
    match pixeldrain::resume(st, Reply::Page("\"file_size_limit\":5000".to_string()), &mut s) {
        Step::Done(Err(UploadError::FileSizeLimit(_))) => {},
        _ => panic!("expected the size ceiling"),
    }
}

#[test]
fn pixeldrain_page_without_limit() {
    let mut s = NestedMap::new();
    let st = PixeldrainState::Probe { api_key: "k".to_string(), file_size: 1 };
    match pixeldrain::resume(st, Reply::Page("<html></html>".to_string()), &mut s) {
        Step::Done(Err(UploadError::Parse(m))) => {
            assert_eq!(m, "failed to extract file size limit from html")
        },
        _ => panic!("expected an extraction error"),
    }
}

fn ok_folder(id: &str) -> Reply {
    Reply::Folder(CreateFolderResp { status: "ok".to_string(), data: CreateFolderData { id: id.to_string() } })
}

fn servers(name: &str) -> Reply {
    Reply::Servers(GetServersResp {
        status: "ok".to_string(),
        data: GetServersData { servers: vec![Server { name: name.to_string() }] },
    })
}

fn account() -> Reply {
    Reply::Account(AccountResp {
        status: "ok".to_string(),
        data: AccountData { token: "tok".to_string(), root_folder: "root".to_string() },
    })
}

fn uploaded(page: &str) -> Reply {
    Reply::GofileUpload(GofileUploadResp { status: "ok".to_string(), data: UploadData { download_page: page.to_string() } })
}

/// Runs one file through the provider with a mock host; returns the URL
/// and the kinds of exchange made.
fn run_gofile(cfg: &NestedMap, s: &mut NestedMap, folder_ids: &mut Vec<String>) -> (String, Vec<Expect>) {
    let mut made = Vec::new();
    let mut st = gofile::start(cfg, s);
    loop {
        let ex = st.exchange("/d/a.txt");
        made.push(ex.expect);
        let reply = match ex.expect {
            Expect::Account => account(),
            Expect::Servers => servers("store1"),
            Expect::Folder => match &st {
                GofileState::CreateFolder { .. } => {
                    let id = format!("f{}", folder_ids.len());
                    folder_ids.push(id.clone());
                    ok_folder(&id)
                },
                _ => ok_folder("ignored"),
            },
            Expect::GofileUpload => uploaded("https://gofile.io/d/x"),
            _ => panic!("unexpected exchange"),
        };
        match gofile::resume(st, reply, s) {
            Step::Next(next) => st = next,
            Step::Done(Ok(url)) => return (url, made),
            Step::Done(Err(e)) => panic!("{}", e.message()),
        }
    }
}

#[test]
fn gofile_cached_session_skips_setup() {
    let cfg = config("gofile", &[("aio_upload", "y")]);
    let mut s = NestedMap::new();
    set_session_val(&mut s, "gofile", "token", "Bearer tok");
    set_session_val(&mut s, "gofile", "root_folder", "root");
    set_session_val(&mut s, "gofile", "folder_id", "fold");
    let mut ids = Vec::new();
    let (url, made) = run_gofile(&cfg, &mut s, &mut ids);
    assert_eq!(url, "https://gofile.io/d/x");
    assert_eq!(made, vec![Expect::Servers, Expect::GofileUpload]);
    let (_, made) = run_gofile(&cfg, &mut s, &mut ids);
    assert_eq!(made, vec![Expect::Servers, Expect::GofileUpload]);
    assert!(ids.is_empty());
}

#[test]
fn gofile_per_file_folders_without_flag() {
    let cfg = NestedMap::new();
    let mut s = NestedMap::new();
    let mut ids = Vec::new();
    let (_, first) = run_gofile(&cfg, &mut s, &mut ids);
    assert_eq!(first[0], Expect::Account);
    let after_first = ids.len();
    let (_, second) = run_gofile(&cfg, &mut s, &mut ids);
    assert_eq!(second[0], Expect::Servers);
    assert!(after_first >= 1);
    assert!(ids.len() - after_first >= 1);
    assert!(ids.len() >= 2);
    assert_eq!(get_session_val(&s, "gofile", "folder_id"), "f0");
    assert_eq!(get_session_val(&s, "gofile", "token"), "Bearer tok");
}

#[test]
fn gofile_single_folder_with_flag() {
    let cfg = config("gofile", &[("aio_upload", "y")]);
    let mut s = NestedMap::new();
    let mut ids = Vec::new();
    for _ in 0..4 {
        run_gofile(&cfg, &mut s, &mut ids);
    }
    assert_eq!(ids.len(), 1);
    assert_eq!(get_session_val(&s, "gofile", "folder_id"), "f0");
}

#[test]
fn gofile_flag_other_than_y_is_per_file() {
    let cfg = config("gofile", &[("aio_upload", "yes")]);
    let mut s = NestedMap::new();
    let mut ids = Vec::new();
    run_gofile(&cfg, &mut s, &mut ids);
    run_gofile(&cfg, &mut s, &mut ids);
    assert_eq!(ids.len(), 3);
}

#[test]
fn gofile_upload_request_shape() {
    let st = GofileState::Upload {
        token: "Bearer t".to_string(),
        server: "store9".to_string(),
        folder: "fid".to_string(),
    };
    let ex = st.exchange("/d/a.txt");
    assert_eq!(ex.request.url, "https://store9.gofile.io/contents/uploadFile");
    assert_eq!(ex.request.headers[1], ("authorization".to_string(), "Bearer t".to_string()));
    match ex.request.payload {
        Payload::File(f) => assert_eq!(f.fields[0], ("folderId".to_string(), "fid".to_string())),
        _ => panic!("expected a file part"),
    }
    let st = GofileState::SetPublic {
        token: "Bearer t".to_string(),
        root: "r".to_string(),
        server: "s".to_string(),
        folder: "fid".to_string(),
        per_file: true,
        cache: false,
    };
    let ex = st.exchange("/d/a.txt");
    assert_eq!(ex.request.verb, Verb::Put);
    assert_eq!(ex.request.url, "https://api.gofile.io/contents/fid/update");
}

#[test]
fn gofile_bad_status_keeps_cached_values() {
    let mut s = NestedMap::new();
    set_session_val(&mut s, "gofile", "token", "Bearer tok");
    set_session_val(&mut s, "gofile", "root_folder", "root");
    let st = GofileState::CreateFolder {
        token: "Bearer tok".to_string(),
        root: "root".to_string(),
        server: "s".to_string(),
        per_file: false,
        cache: true,
    };
    let bad = Reply::Folder(CreateFolderResp { status: "error".to_string(), data: CreateFolderData { id: String::new() } });
    match gofile::resume(st, bad, &mut s) {
        Step::Done(Err(UploadError::BadApiResponse(_))) => {},
        _ => panic!("expected a reported failure"),
    }
    assert_eq!(get_session_val(&s, "gofile", "token"), "Bearer tok");
    assert_eq!(get_session_val(&s, "gofile", "folder_id"), "");
}

#[test]
fn gofile_empty_server_list() {
    let mut s = NestedMap::new();
    let st = GofileState::Servers { token: "t".to_string(), root: "r".to_string(), per_file: false };
    let r = Reply::Servers(GetServersResp { status: "ok".to_string(), data: GetServersData { servers: Vec::new() } });
    match gofile::resume(st, r, &mut s) {
        Step::Done(Err(UploadError::Parse(_))) => {},
        _ => panic!("expected a parse error"),
    }
}

#[test]
fn dispatch_routes_each_host() {
    let cfg = NestedMap::new();
    let s = NestedMap::new();
    match dispatch::start(Host::Fileio, 1, &cfg, &s) {
        Step::Next(HostState::Fileio(_)) => {},
        _ => panic!("expected file.io"),
    }
    match dispatch::start(Host::Gofile, 1, &cfg, &s) {
        Step::Next(HostState::Gofile(GofileState::Account { per_file })) => assert!(per_file),
        _ => panic!("expected Gofile's account call"),
    }
    match dispatch::start(Host::Pixeldrain, 1, &cfg, &s) {
        Step::Done(Err(e)) => assert!(e.is_fatal()),
        _ => panic!("expected Pixeldrain's config error"),
    }
}

#[test]
fn dispatch_resume_fileio() {
    let mut s = NestedMap::new();
    match dispatch::resume(HostState::Fileio(FileioState::Upload), fileio_answer(true, "https://x/1"), &mut s) {
        Step::Done(Ok(url)) => assert_eq!(url, "https://x/1"),
        _ => panic!("expected the link"),
    }
}
