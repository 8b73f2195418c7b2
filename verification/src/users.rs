//! Accounts, as the server describes them.

use vstd::prelude::*;

verus! {

/// An account: the author of a release or the uploader of an asset.
///
/// A value is a snapshot of one response. It is not kept in step with the
/// server.
#[derive(Debug, Clone, PartialEq)]
pub struct User {
    pub login: String,
    pub id: u64,
    pub avatar_url: String,
    pub gravatar_id: String,
    pub url: String,
    pub html_url: String,
    pub followers_url: String,
    pub following_url: String,
    pub gists_url: String,
    pub starred_url: String,
    pub subscriptions_url: String,
    pub organizations_url: String,
    pub repos_url: String,
    pub events_url: String,
    pub received_events_url: String,
    pub site_admin: bool,
}

} // verus!
