use uploader::hosts::enums::Host;
use uploader::hosts::errors::{SectionKeyMissingError, SectionValueEmptyError, UploadError};
use uploader::hosts::sizes::Size;
use uploader::hosts::utils::{
    check_file_size_limit, get_config_val, get_section_or_empty, get_session_val, set_session_val,
};
use uploader::maps::{NestedMap, StrMap};

#[test]
fn size_check_passes_at_the_ceiling() {
    assert!(check_file_size_limit(2_000_000_000, Size::GB2).is_ok());
    assert!(check_file_size_limit(0, Size::MB50).is_ok());
}

#[test]
fn size_check_fails_above_the_ceiling() {
    assert!(check_file_size_limit(2_000_000_001, Size::GB2).is_err());
    assert!(check_file_size_limit(11, Size::Custom(10)).is_err());
    assert!(check_file_size_limit(10, Size::Custom(10)).is_ok());
}

#[test]
fn size_scenario_half_gigabyte_under_two() {
    assert!(check_file_size_limit(500_000_000, Size::GB2).is_ok());
}

#[test]
fn preset_values() {
    assert_eq!(Size::MB50.value(), 50_000_000);
    assert_eq!(Size::MB128.value(), 128_000_000);
    assert_eq!(Size::GB2.value(), 2_000_000_000);
    assert_eq!(Size::GB150.value(), 150_000_000_000);
    assert_eq!(Size::GB500.value(), 500_000_000_000);
    assert_eq!(Size::Custom(7).value(), 7);
}

#[test]
fn exceeded_is_strictly_greater() {
    assert!(!Size::MB100.is_exceeded_by(100_000_000));
    assert!(Size::MB100.is_exceeded_by(100_000_001));
}

#[test]
fn custom_size_from_text() {
    match Size::custom_from_str(" 12345\n") {
        Ok(s) => assert_eq!(s.value(), 12345),
        Err(_) => panic!("expected a size"),
    }
    match Size::custom_from_str("+42") {
        Ok(s) => assert_eq!(s.value(), 42),
        Err(_) => panic!("expected a size"),
    }
    assert!(Size::custom_from_str("12a").is_err());
    assert!(Size::custom_from_str("").is_err());
    assert!(Size::custom_from_str("-1").is_err());
    assert!(Size::custom_from_str("99999999999999999999999").is_err());
}

#[test]
fn from_decimal_keeps_white_space_significant() {
    assert!(Size::from_decimal(" 1").is_err());
    match Size::from_decimal("1000") {
        Ok(s) => assert_eq!(s.value(), 1000),
        Err(_) => panic!("expected a size"),
    }
}

#[test]
fn session_missing_key_reads_empty() {
    let s = NestedMap::new();
    assert_eq!(get_session_val(&s, "gofile", "token"), "");
}

#[test]
fn session_set_then_get() {
    let mut s = NestedMap::new();
    set_session_val(&mut s, "gofile", "token", "Bearer abc");
    assert_eq!(get_session_val(&s, "gofile", "token"), "Bearer abc");
    set_session_val(&mut s, "gofile", "token", "Bearer xyz");
    assert_eq!(get_session_val(&s, "gofile", "token"), "Bearer xyz");
}

#[test]
fn session_hosts_are_independent() {
    let mut s = NestedMap::new();
    set_session_val(&mut s, "gofile", "size_limit", "5");
    assert_eq!(get_session_val(&s, "pixeldrain", "size_limit"), "");
    set_session_val(&mut s, "pixeldrain", "size_limit", "9");
    assert_eq!(get_session_val(&s, "gofile", "size_limit"), "5");
    assert_eq!(get_session_val(&s, "pixeldrain", "size_limit"), "9");
    assert_eq!(get_session_val(&s, "gofile", "token"), "");
}

fn section(pairs: &[(&str, &str)]) -> StrMap {
    let mut m = StrMap::new();
    for (k, v) in pairs {
        m.insert(k.to_string(), v.to_string());
    }
    m
}

#[test]
fn config_required_missing_key() {
    let m = section(&[("other", "x")]);
    match get_config_val(&m, "api_key", true) {
        Err(UploadError::KeyMissing(e)) => assert_eq!(e.key_name(), "api_key"),
        _ => panic!("expected a missing key"),
    }
}

#[test]
fn config_required_empty_value() {
    let m = section(&[("api_key", "")]);
    match get_config_val(&m, "api_key", true) {
        Err(UploadError::ValueEmpty(e)) => assert_eq!(e.key_name(), "api_key"),
        _ => panic!("expected an empty value"),
    }
}

#[test]
fn config_optional_reads_empty() {
    let empty = section(&[("aio_upload", "")]);
    let absent = section(&[]);
    assert_eq!(get_config_val(&empty, "aio_upload", false).ok().unwrap(), "");
    assert_eq!(get_config_val(&absent, "aio_upload", false).ok().unwrap(), "");
}

#[test]
fn config_present_value() {
    let m = section(&[("api_key", "k1")]);
    assert_eq!(get_config_val(&m, "api_key", true).ok().unwrap(), "k1");
    assert_eq!(get_config_val(&m, "api_key", false).ok().unwrap(), "k1");
}

#[test]
fn config_errors_are_fatal_others_not() {
    let m = section(&[("api_key", "")]);
    assert!(get_config_val(&m, "api_key", true).err().unwrap().is_fatal());
    assert!(!UploadError::Transport("x".to_string()).is_fatal());
}

#[test]
fn section_copy_or_empty() {
    let mut cfg = NestedMap::new();
    cfg.insert_section("gofile".to_string(), section(&[("aio_upload", "y")]));
    let g = get_section_or_empty(&cfg, "gofile");
    assert_eq!(g.get(&"aio_upload".to_string()).unwrap(), "y");
    let p = get_section_or_empty(&cfg, "pixeldrain");
    assert!(p.get(&"api_key".to_string()).is_none());
}

#[test]
fn host_names() {
    assert_eq!(Host::Fileio.to_string(), "fileio");
    assert_eq!(Host::Gofile.to_string(), "gofile");
    assert_eq!(Host::Pixeldrain.to_string(), "pixeldrain");
}

#[test]
fn error_messages() {
    assert_eq!(
        SectionKeyMissingError::new("api_key").message(),
        "required section key \"api_key\" is missing from the config file"
    );
    assert_eq!(
        SectionValueEmptyError::new("api_key").message(),
        "required value for key \"api_key\" is empty in config file"
    );
}
