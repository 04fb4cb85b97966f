//! The bodies that Gofile's API sends and receives.
use vstd::prelude::*;

verus! {

pub struct Server {
    pub name: String,
}

pub struct GetServersData {
    pub servers: Vec<Server>,
}

pub struct GetServersResp {
    pub status: String,
    pub data: GetServersData,
}

/// Sent as `{"parentFolderId": ...}`.
pub struct CreateFolderPost {
    pub parent_folder_id: String,
}

/// Sent as `{"attribute": ..., "attributeValue": ...}`.
pub struct FolderAttributesPut {
    pub attribute: String,
    pub attribute_value: String,
}

pub struct CreateFolderData {
    pub id: String,
}

pub struct CreateFolderResp {
    pub status: String,
    pub data: CreateFolderData,
}

pub struct AccountData {
    pub token: String,
    pub root_folder: String,
}

pub struct AccountResp {
    pub status: String,
    pub data: AccountData,
}

pub struct UploadData {
    pub download_page: String,
}

pub struct UploadResp {
    pub status: String,
    pub data: UploadData,
}

} // verus!
