//! Releases and assets, as the server describes them.

use vstd::prelude::*;

use crate::users::User;

verus! {

/// A file attached to a release.
///
/// A value is a snapshot of one response. It is not kept in step with the
/// server and does not know the handle that asked for it.
#[derive(Debug, Clone, PartialEq)]
pub struct Asset {
    pub url: String,
    pub browser_download_url: String,
    pub id: u64,
    pub name: String,
    pub label: Option<String>,
    pub state: String,
    pub content_type: String,
    pub size: u64,
    pub download_count: u64,
    pub created_at: String,
    pub updated_at: String,
    pub uploader: User,
}

/// A release of a repository, with the assets attached to it in the order
/// of the response.
///
/// A value is a snapshot of one response. It is not kept in step with the
/// server and does not know the handle that asked for it.
#[derive(Debug, Clone, PartialEq)]
pub struct Release {
    pub url: String,
    pub html_url: String,
    pub assets_url: String,
    pub upload_url: String,
    pub tarball_url: String,
    pub zipball_url: String,
    pub id: u64,
    pub tag_name: String,
    pub target_commitish: String,
    pub name: String,
    pub body: String,
    pub draft: bool,
    pub prerelease: bool,
    pub created_at: String,
    pub published_at: String,
    pub author: User,
    pub assets: Vec<Asset>,
}

} // verus!
