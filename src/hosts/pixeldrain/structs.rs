//! The bodies of Pixeldrain's API.
use vstd::prelude::*;

verus! {

pub struct UploadResp {
    pub id: String,
}

pub struct CreateFolderPost {
    pub id: String,
}

} // verus!
