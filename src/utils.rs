//! Paths: the file name of a path, and its case.
use vstd::prelude::*;
use vstd::string::StringExecFns;

verus! {

/// The last component of a path, as `Path::file_name` gives it.
pub uninterp spec fn file_name_of(path: Seq<char>) -> Option<Seq<char>>;

/// Relies on `Path::file_name`: the final component of the path, if any.
#[verifier::external_body]
fn path_file_name(path: &str) -> (r: Option<String>)
    ensures
        r is None <==> file_name_of(path@) is None,
        r matches Some(n) ==> file_name_of(path@) == Some(n@),
{
    match std::path::Path::new(path).file_name() {
        Some(n) => Some(n.to_string_lossy().into_owned()),
        None => None,
    }
}

/// The file name of a path, or an error for a path without one.
pub fn get_fname_string_from_path(path: &str) -> (r: Result<String, String>)
    ensures
        r matches Ok(n) ==> file_name_of(path@) == Some(n@),
        r matches Err(m) ==> file_name_of(path@) is None && m@ == "Path does not have a filename."@,
{
    match path_file_name(path) {
        Some(n) => Ok(n),
        None => Err(String::from_str("Path does not have a filename.")),
    }
}

/// On this platform a path's case is kept as it is.
pub fn normalise_path_case(path: &str) -> (r: String)
    ensures
        r@ == path@,
{
    String::from_str(path)
}

} // verus!
