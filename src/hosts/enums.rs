//! The closed set of supported hosting services.
use vstd::prelude::*;
use vstd::string::StringExecFns;

verus! {

#[derive(Copy, Clone, Debug, PartialEq, Eq, Structural, Hash, PartialOrd, Ord)]
pub enum Host {
    Fileio,
    Gofile,
    Pixeldrain,
}

/// The lower-case name of a host, which also names its config section and
/// its part of the session store.
pub open spec fn host_name(h: Host) -> Seq<char> {
    match h {
        Host::Fileio => "fileio"@,
        Host::Gofile => "gofile"@,
        Host::Pixeldrain => "pixeldrain"@,
    }
}

impl Host {
    pub fn to_string(&self) -> (r: String)
        ensures
            r@ == host_name(*self),
    {
        match self {
            Host::Fileio => String::from_str("fileio"),
            Host::Gofile => String::from_str("gofile"),
            Host::Pixeldrain => String::from_str("pixeldrain"),
        }
    }
}

} // verus!
