use uploader::client::{cookie_header, mime_type_of, part_label, Progress};
use uploader::utils::{get_fname_string_from_path, normalise_path_case};
use uploader::hosts::pixeldrain::find_size_limit;
use uploader::template::generate_template;

#[test]
fn template_fills_every_placeholder() {
    let r = generate_template(
        "<filename>|<file_path>|<url>|<host><newline>".to_string(),
        "a.txt",
        "/d/a.txt",
        "https://x/1",
        "gofile",
        "\n",
    );
    assert_eq!(r, "a.txt|/d/a.txt|https://x/1|gofile\n");
}

#[test]
fn template_default_and_repeats() {
    let r = generate_template("<url><newline>".to_string(), "f", "p", "u", "h", "\r\n");
    assert_eq!(r, "u\r\n");
    let r = generate_template("<url><url> <nope>".to_string(), "f", "p", "u", "h", "\n");
    assert_eq!(r, "uu <nope>");
}

#[test]
fn cookie_header_joins_pairs() {
    let c = vec![("a".to_string(), "1".to_string()), ("b".to_string(), "2".to_string())];
    assert_eq!(cookie_header(&c), "a=1; b=2");
    assert_eq!(cookie_header(&vec![("pd_auth_key".to_string(), "k".to_string())]), "pd_auth_key=k");
    assert_eq!(cookie_header(&Vec::new()), "");
}

#[test]
fn size_limit_found_in_page() {
    let html = "<script>var x = {\"name\":\"a\",\"file_size_limit\":20000000000,\"k\":1}</script>";
    assert_eq!(find_size_limit(html).unwrap(), "20000000000");
}

#[test]
fn size_limit_skips_marker_without_digits() {
    let html = "\"file_size_limit\":null \"file_size_limit\":77x";
    assert_eq!(find_size_limit(html).unwrap(), "77");
}

#[test]
fn size_limit_absent() {
    assert!(find_size_limit("<html>nothing here</html>").is_none());
    assert!(find_size_limit("").is_none());
}

#[test]
fn mime_type_guess_and_fallback() {
    assert_eq!(mime_type_of("photo.png"), "image/png");
    assert_eq!(mime_type_of("notes.txt"), "text/plain");
    assert_eq!(mime_type_of("data.zzunknown"), "application/octet-stream");
    assert_eq!(mime_type_of("noext"), "application/octet-stream");
}

#[test]
fn file_name_of_path() {
    assert_eq!(get_fname_string_from_path("/tmp/dir/x.txt").unwrap(), "x.txt");
    assert!(get_fname_string_from_path("/").is_err());
    let label = part_label("/tmp/a.png").unwrap();
    assert_eq!(label.file_name, "a.png");
    assert_eq!(label.mime, "image/png");
    assert!(part_label("..").is_err());
}

#[test]
fn path_case_kept() {
    assert_eq!(normalise_path_case("/Tmp/A.txt"), "/Tmp/A.txt");
}

#[test]
fn progress_counts_and_finishes_once() {
    let mut p = Progress::new(100);
    p.advance(40);
    p.advance(0);
    p.advance(60);
    assert_eq!(p.position(), 100);
    assert_eq!(p.total(), 100);
    assert!(p.finish());
    assert!(!p.finish());
    p.advance(usize::MAX);
    assert_eq!(p.position(), u64::MAX);
}
