//! The body that file.io answers an upload with.
use vstd::prelude::*;

verus! {

pub struct UploadResp {
    pub link: String,
    pub success: bool,
}

} // verus!
