//! Data types of the drive API.

use vstd::prelude::*;

verus! {

#[derive(Debug, Clone)]
pub struct FileUser {
    pub display_name: Option<String>,
    pub kind: Option<String>,
    pub me: bool,
    pub permission_id: Option<String>,
    pub email_address: Option<String>,
    pub photo_link: Option<String>,
}

#[derive(Debug, Clone)]
pub struct ContentHints {
    pub thumbnail: Option<Thumbnail>,
    pub indexable_text: Option<String>,
}

#[derive(Debug, Clone)]
pub struct Thumbnail {
    pub image: Option<String>,
    pub mime_type: Option<String>,
}

#[derive(Debug, Clone)]
pub struct VideoMediaMetadata {
    pub width: Option<i64>,
    pub height: Option<i64>,
    pub duration_millis: Option<String>,
}

#[derive(Debug, Clone)]
pub struct Permission {
    pub id: Option<String>,
    pub kind: Option<String>,
    pub permission_type: Option<String>,
    pub role: Option<String>,
    pub email_address: Option<String>,
    pub display_name: Option<String>,
    pub photo_link: Option<String>,
    pub domain: Option<String>,
    pub expiration_time: Option<String>,
    pub deleted: bool,
    pub allow_file_discovery: bool,
    pub pending_owner: bool,
}

#[derive(Debug, Clone)]
pub struct SharedDriveRestrictions {
    pub admin_managed_restrictions: bool,
    pub copy_requires_writer_permission: bool,
    pub domain_users_only: bool,
    pub drive_members_only: bool,
    pub sharing_folders_requires_organizer_permission: bool,
}

#[derive(Debug, Clone)]
pub struct StorageQuota {
    pub limit: Option<String>,
    pub usage: Option<String>,
    pub usage_in_drive: Option<String>,
    pub usage_in_drive_trash: Option<String>,
}

#[derive(Debug, Clone)]
pub struct ExportFormat {
    pub source: String,
    pub targets: Vec<String>,
}

} // verus!
