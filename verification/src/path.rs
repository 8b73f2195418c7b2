//! How request paths are put together.
//!
//! Every path has the shape
//! `/repos/{owner}/{repo}/releases{release}{resource}{extra}`: `{release}` is
//! empty for the collection and `/{id}` for one release, `{resource}` is
//! empty for releases and `/assets` for the assets of a release, and `{extra}`
//! is whatever the operation adds. Owner, repository and names go in as they
//! are: nothing is checked or escaped.

use vstd::prelude::*;
use vstd::string::*;

use crate::text::{decimal, push_decimal};

verus! {

/// A repository, by its owner and its name.
pub struct RepositoryCoordinate {
    pub owner: Seq<char>,
    pub repo: Seq<char>,
}

/// One release of a repository, by the repository and the release's id.
pub struct ReleaseCoordinate {
    pub owner: Seq<char>,
    pub repo: Seq<char>,
    pub id: u64,
}

/// The path segment `/{id}` of one item of a collection.
pub open spec fn item_suffix(id: u64) -> Seq<char> {
    "/"@ + decimal(id as nat)
}

/// The query `?name={name}` that names an upload.
pub open spec fn name_query(name: Seq<char>) -> Seq<char> {
    "?name="@ + name
}

impl RepositoryCoordinate {
    /// The path of the repository's releases.
    pub open spec fn releases_path(self) -> Seq<char> {
        "/repos/"@ + self.owner + "/"@ + self.repo + "/releases"@
    }

    /// The release `id` of this repository.
    pub open spec fn release(self, id: u64) -> ReleaseCoordinate {
        ReleaseCoordinate { owner: self.owner, repo: self.repo, id }
    }
}

impl ReleaseCoordinate {
    /// The repository that the release belongs to.
    pub open spec fn repository(self) -> RepositoryCoordinate {
        RepositoryCoordinate { owner: self.owner, repo: self.repo }
    }

    /// The path of the release.
    pub open spec fn release_path(self) -> Seq<char> {
        self.repository().releases_path() + item_suffix(self.id)
    }

    /// The path of the release's assets.
    pub open spec fn assets_path(self) -> Seq<char> {
        self.release_path() + "/assets"@
    }
}

/// The path of the releases of `owner`'s repository `repo`.
pub(crate) fn releases_path_text(owner: &str, repo: &str) -> (path: String)
    ensures
        path@ == (RepositoryCoordinate { owner: owner@, repo: repo@ }).releases_path(),
{
    let mut path = String::from_str("/repos/");
    path.append(owner);
    path.append("/");
    path.append(repo);
    path.append("/releases");
    path
}

/// The path segment of the item `id`.
pub(crate) fn item_suffix_text(id: u64) -> (suffix: String)
    ensures
        suffix@ == item_suffix(id),
{
    let mut suffix = String::from_str("/");
    push_decimal(&mut suffix, id);
    suffix
}

/// The query that names an upload `name`.
pub(crate) fn name_query_text(name: &str) -> (query: String)
    ensures
        query@ == name_query(name@),
{
    let mut query = String::from_str("?name=");
    query.append(name);
    query
}

} // verus!
