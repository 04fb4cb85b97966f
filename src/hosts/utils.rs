//! The size guard and the accessors of the config and the session store.
use crate::hosts::errors::{
    FileSizeLimitError, SectionKeyMissingError, SectionValueEmptyError, UploadError, ErrorView,
};
use crate::hosts::sizes::Size;
use crate::maps::{section_or_empty, value_or_empty, NestedMap, StrMap};
use vstd::prelude::*;
use vstd::string::StringExecFns;

verus! {

/// Fails exactly when `size` is above the ceiling; a file of exactly the
/// ceiling's size passes.
pub fn check_file_size_limit(size: usize, limit: Size) -> (r: Result<(), FileSizeLimitError>)
    ensures
        r is Err <==> size as int > limit.bytes(),
{
    if limit.is_exceeded_by(size) {
        Err(FileSizeLimitError)
    } else {
        Ok(())
    }
}

/// A copy of the section `key` of the config, or an empty section.
pub fn get_section_or_empty(cfg: &NestedMap, key: &str) -> (r: StrMap)
    requires
        cfg.wf(),
    ensures
        r.wf(),
        r@ == section_or_empty(cfg@, key@),
{
    match cfg.get(&String::from_str(key)) {
        Some(section) => section.copied(),
        None => StrMap::new(),
    }
}

/// The session value `key` of `host`; the empty string when never set.
pub fn get_session_val(s: &NestedMap, host: &str, key: &str) -> (r: String)
    requires
        s.wf(),
    ensures
        r@ == value_or_empty(s@, host@, key@),
{
    match s.get(&String::from_str(host)) {
        Some(section) => match section.get(&String::from_str(key)) {
            Some(v) => v.clone(),
            None => String::new(),
        },
        None => String::new(),
    }
}

/// The session store after `key` of `host` is set to `value`.
pub open spec fn session_set(
    s: Map<Seq<char>, Map<Seq<char>, Seq<char>>>,
    host: Seq<char>,
    key: Seq<char>,
    value: Seq<char>,
) -> Map<Seq<char>, Map<Seq<char>, Seq<char>>> {
    s.insert(host, section_or_empty(s, host).insert(key, value))
}

pub fn set_session_val(s: &mut NestedMap, host: &str, key: &str, value: &str)
    requires
        old(s).wf(),
    ensures
        final(s).wf(),
        final(s)@ == session_set(old(s)@, host@, key@, value@),
{
    s.set(String::from_str(host), String::from_str(key), String::from_str(value));
}

/// Reading the session store back: a key never written reads as the empty
/// string; after a write the written value is read; a write leaves every
/// other key, of its own host or of any other host, as it was.
pub proof fn lemma_session_get_set(
    s: Map<Seq<char>, Map<Seq<char>, Seq<char>>>,
    host: Seq<char>,
    key: Seq<char>,
    value: Seq<char>,
    other_host: Seq<char>,
    other_key: Seq<char>,
)
    ensures
        !section_or_empty(s, other_host).contains_key(other_key) ==> value_or_empty(
            s,
            other_host,
            other_key,
        ) == Seq::<char>::empty(),
        value_or_empty(session_set(s, host, key, value), host, key) == value,
        other_host != host || other_key != key ==> value_or_empty(
            session_set(s, host, key, value),
            other_host,
            other_key,
        ) == value_or_empty(s, other_host, other_key),
{
}

/// What the config accessor returns for `key` in `section`.
pub open spec fn config_value(section: Map<Seq<char>, Seq<char>>, key: Seq<char>, required: bool) -> Result<
    Seq<char>,
    ErrorView,
> {
    if !section.contains_key(key) {
        if required {
            Err(ErrorView::KeyMissing(key))
        } else {
            Ok(Seq::empty())
        }
    } else if section[key].len() == 0 {
        if required {
            Err(ErrorView::ValueEmpty(key))
        } else {
            Ok(Seq::empty())
        }
    } else {
        Ok(section[key])
    }
}

/// The config value `key`; a required key fails when absent or empty, an
/// optional one reads as the empty string then.
pub fn get_config_val(map: &StrMap, key: &str, required: bool) -> (r: Result<String, UploadError>)
    requires
        map.wf(),
    ensures
        match r {
            Ok(v) => config_value(map@, key@, required) == Ok::<Seq<char>, ErrorView>(v@),
            Err(e) => config_value(map@, key@, required) == Err::<Seq<char>, ErrorView>(e@),
        },
{
    match map.get(&String::from_str(key)) {
        None => {
            if required {
                Err(UploadError::KeyMissing(SectionKeyMissingError::new(key)))
            } else {
                Ok(String::new())
            }
        },
        Some(value) => {
            if value.unicode_len() == 0 {
                if required {
                    Err(UploadError::ValueEmpty(SectionValueEmptyError::new(key)))
                } else {
                    Ok(String::new())
                }
            } else {
                Ok(value.clone())
            }
        },
    }
}

} // verus!
