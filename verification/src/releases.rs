//! The releases of one repository, and one release among them.

use vstd::prelude::*;
use vstd::string::*;

use crate::assets::Assets;
use crate::options::ReleaseOptions;
use crate::path::{
    item_suffix, item_suffix_text, releases_path_text, ReleaseCoordinate, RepositoryCoordinate,
};
use crate::request::{Reply, Request, RequestView, Verb, VerbView};
use crate::text::push_decimal;

verus! {

/// One release of a repository.
///
/// The handle holds a client and the release's coordinate. Neither changes
/// once the handle is made.
pub struct ReleaseRef<C: Clone> {
    client: C,
    owner: String,
    repo: String,
    id: u64,
}

impl<C: Clone> View for ReleaseRef<C> {
    type V = ReleaseCoordinate;

    closed spec fn view(&self) -> ReleaseCoordinate {
        ReleaseCoordinate { owner: self.owner@, repo: self.repo@, id: self.id }
    }
}

impl<C: Clone> Clone for ReleaseRef<C> {
    /// A second handle on the same release. It gets a clone of the client.
    fn clone(&self) -> (copy: Self)
        ensures
            copy@ == self@,
            cloned(*self.client(), *copy.client()),
    {
        ReleaseRef {
            client: self.client.clone(),
            owner: self.owner.clone(),
            repo: self.repo.clone(),
            id: self.id,
        }
    }
}

impl<C: Clone> ReleaseRef<C> {
    /// The client that the handle holds.
    pub closed spec fn spec_client(&self) -> &C {
        &self.client
    }

    /// The release `id` of `owner`'s repository `repo`.
    pub fn new(client: C, owner: &str, repo: &str, id: u64) -> (release: Self)
        ensures
            release@ == (ReleaseCoordinate { owner: owner@, repo: repo@, id }),
            *release.client() == client,
    {
        ReleaseRef { client, owner: String::from_str(owner), repo: String::from_str(repo), id }
    }

    /// The client that the handle holds.
    #[verifier::when_used_as_spec(spec_client)]
    pub fn client(&self) -> (client: &C)
        ensures
            client == self.spec_client(),
    {
        &self.client
    }

    /// The path of the release, followed by `more`.
    pub fn path(&self, more: &str) -> (path: String)
        ensures
            path@ == self@.release_path() + more@,
    {
        let mut path = releases_path_text(self.owner.as_str(), self.repo.as_str());
        path.append("/");
        push_decimal(&mut path, self.id);
        path.append(more);
        path
    }

    /// The request for the release as it now is.
    pub fn get(&self) -> (request: Request)
        ensures
            request@ == (RequestView {
                verb: VerbView::Get,
                path: self@.release_path(),
                reply: Reply::Release,
            }),
    {
        let path = self.path("");
        proof {
            reveal_strlit("");
        }
        Request { verb: Verb::Get, path, reply: Reply::Release }
    }

    /// The assets of the release.
    ///
    /// Nothing is sent: the new handle gets a clone of the client and the
    /// coordinate of this release.
    pub fn assets(&self) -> (assets: Assets<C>)
        ensures
            assets@ == self@,
            cloned(*self.client(), *assets.client()),
    {
        Assets::new(self.client.clone(), self.owner.as_str(), self.repo.as_str(), self.id)
    }
}

/// The releases of one repository.
///
/// The handle holds a client and the repository's coordinate. Neither changes
/// once the handle is made.
pub struct Releases<C: Clone> {
    client: C,
    owner: String,
    repo: String,
}

impl<C: Clone> View for Releases<C> {
    type V = RepositoryCoordinate;

    closed spec fn view(&self) -> RepositoryCoordinate {
        RepositoryCoordinate { owner: self.owner@, repo: self.repo@ }
    }
}

impl<C: Clone> Clone for Releases<C> {
    /// A second handle on the same releases. It gets a clone of the client.
    fn clone(&self) -> (copy: Self)
        ensures
            copy@ == self@,
            cloned(*self.client(), *copy.client()),
    {
        Releases {
            client: self.client.clone(),
            owner: self.owner.clone(),
            repo: self.repo.clone(),
        }
    }
}

impl<C: Clone> Releases<C> {
    /// The client that the handle holds.
    pub closed spec fn spec_client(&self) -> &C {
        &self.client
    }

    /// The releases of `owner`'s repository `repo`.
    pub fn new(client: C, owner: &str, repo: &str) -> (releases: Self)
        ensures
            releases@ == (RepositoryCoordinate { owner: owner@, repo: repo@ }),
            *releases.client() == client,
    {
        Releases { client, owner: String::from_str(owner), repo: String::from_str(repo) }
    }

    /// The client that the handle holds.
    #[verifier::when_used_as_spec(spec_client)]
    pub fn client(&self) -> (client: &C)
        ensures
            client == self.spec_client(),
    {
        &self.client
    }

    /// The path of the releases, followed by `more`.
    pub fn path(&self, more: &str) -> (path: String)
        ensures
            path@ == self@.releases_path() + more@,
    {
        let mut path = releases_path_text(self.owner.as_str(), self.repo.as_str());
        path.append(more);
        path
    }

    /// The request that creates a release from `rel`.
    pub fn create(&self, rel: &ReleaseOptions) -> (request: Request)
        ensures
            request@ == (RequestView {
                verb: VerbView::Post { body: rel@.json() },
                path: self@.releases_path(),
                reply: Reply::Release,
            }),
    {
        let path = self.path("");
        proof {
            reveal_strlit("");
        }
        Request { verb: Verb::Post { body: rel.to_json() }, path, reply: Reply::Release }
    }

    /// The request that edits the release `id` by `rel`.
    ///
    /// Only the fields that `rel` holds are in the body, so the others stay
    /// as they are.
    pub fn edit(&self, id: u64, rel: &ReleaseOptions) -> (request: Request)
        ensures
            request@ == (RequestView {
                verb: VerbView::Patch { body: rel@.json() },
                path: self@.release(id).release_path(),
                reply: Reply::Release,
            }),
    {
        let suffix = item_suffix_text(id);
        Request {
            verb: Verb::Patch { body: rel.to_json() },
            path: self.path(suffix.as_str()),
            reply: Reply::Release,
        }
    }

    /// The request that removes the release `id`.
    pub fn delete(&self, id: u64) -> (request: Request)
        ensures
            request@ == (RequestView {
                verb: VerbView::Delete,
                path: self@.release(id).release_path(),
                reply: Reply::Unit,
            }),
    {
        let suffix = item_suffix_text(id);
        Request { verb: Verb::Delete, path: self.path(suffix.as_str()), reply: Reply::Unit }
    }

    /// The request for all releases of the repository.
    pub fn list(&self) -> (request: Request)
        ensures
            request@ == (RequestView {
                verb: VerbView::Get,
                path: self@.releases_path(),
                reply: Reply::ReleaseList,
            }),
    {
        let path = self.path("");
        proof {
            reveal_strlit("");
        }
        Request { verb: Verb::Get, path, reply: Reply::ReleaseList }
    }

    /// The release `id` of the repository.
    ///
    /// Nothing is sent: the new handle gets a clone of the client, the
    /// coordinate of this repository, and `id`.
    pub fn get(&self, id: u64) -> (release: ReleaseRef<C>)
        ensures
            release@ == self@.release(id),
            cloned(*self.client(), *release.client()),
    {
        ReleaseRef::new(self.client.clone(), self.owner.as_str(), self.repo.as_str(), id)
    }
}

} // verus!
