//! The assets of one release.

use vstd::prelude::*;
use vstd::string::*;

use crate::path::{
    item_suffix, item_suffix_text, name_query, name_query_text, releases_path_text,
    ReleaseCoordinate,
};
use crate::request::{ContentReadError, Reply, Request, RequestView, Verb, VerbView};
use crate::text::push_decimal;

verus! {

/// The assets of one release of a repository.
///
/// The handle holds a client and the release's coordinate. Neither changes
/// once the handle is made.
pub struct Assets<C: Clone> {
    client: C,
    owner: String,
    repo: String,
    releaseid: u64,
}

impl<C: Clone> View for Assets<C> {
    type V = ReleaseCoordinate;

    closed spec fn view(&self) -> ReleaseCoordinate {
        ReleaseCoordinate { owner: self.owner@, repo: self.repo@, id: self.releaseid }
    }
}

impl<C: Clone> Clone for Assets<C> {
    /// A second handle on the same assets. It gets a clone of the client.
    fn clone(&self) -> (copy: Self)
        ensures
            copy@ == self@,
            cloned(*self.client(), *copy.client()),
    {
        Assets {
            client: self.client.clone(),
            owner: self.owner.clone(),
            repo: self.repo.clone(),
            releaseid: self.releaseid,
        }
    }
}

impl<C: Clone> Assets<C> {
    /// The client that the handle holds.
    pub closed spec fn spec_client(&self) -> &C {
        &self.client
    }

    /// The assets of the release `releaseid` of `owner`'s repository `repo`.
    pub fn new(client: C, owner: &str, repo: &str, releaseid: u64) -> (assets: Self)
        ensures
            assets@ == (ReleaseCoordinate { owner: owner@, repo: repo@, id: releaseid }),
            *assets.client() == client,
    {
        Assets {
            client,
            owner: String::from_str(owner),
            repo: String::from_str(repo),
            releaseid,
        }
    }

    /// The client that the handle holds.
    #[verifier::when_used_as_spec(spec_client)]
    pub fn client(&self) -> (client: &C)
        ensures
            client == self.spec_client(),
    {
        &self.client
    }

    /// The path of the assets, followed by `more`.
    pub fn path(&self, more: &str) -> (path: String)
        ensures
            path@ == self@.assets_path() + more@,
    {
        let mut path = releases_path_text(self.owner.as_str(), self.repo.as_str());
        path.append("/");
        push_decimal(&mut path, self.releaseid);
        path.append("/assets");
        path.append(more);
        path
    }

    /// The upload of a new asset called `name`, with the given content and
    /// media type.
    ///
    /// `content` is what reading the asset's source gave. Where the read
    /// failed there is no request: the failure is handed back as it came.
    pub fn post(
        &self,
        name: &str,
        content: Result<Vec<u8>, ContentReadError>,
        mime: hyper::mime::Mime,
    ) -> (upload: Result<Request, ContentReadError>)
        ensures
            match content {
                Ok(bytes) => upload matches Ok(request) && request@ == (RequestView {
                    verb: VerbView::PostType { content: bytes@, content_type: mime },
                    path: self@.assets_path() + name_query(name@),
                    reply: Reply::Asset,
                }),
                Err(error) => upload == Err::<Request, ContentReadError>(error),
            },
    {
        match content {
            Ok(bytes) => {
                let query = name_query_text(name);
                Ok(
                    Request {
                        verb: Verb::PostType { content: bytes, content_type: mime },
                        path: self.path(query.as_str()),
                        reply: Reply::Asset,
                    },
                )
            },
            Err(error) => Err(error),
        }
    }

    /// The request for the asset `id`.
    pub fn get(&self, id: u64) -> (request: Request)
        ensures
            request@ == (RequestView {
                verb: VerbView::Get,
                path: self@.assets_path() + item_suffix(id),
                reply: Reply::Asset,
            }),
    {
        let suffix = item_suffix_text(id);
        Request { verb: Verb::Get, path: self.path(suffix.as_str()), reply: Reply::Asset }
    }

    /// The request that removes the asset `id`.
    pub fn delete(&self, id: u64) -> (request: Request)
        ensures
            request@ == (RequestView {
                verb: VerbView::Delete,
                path: self@.assets_path() + item_suffix(id),
                reply: Reply::Unit,
            }),
    {
        let suffix = item_suffix_text(id);
        Request { verb: Verb::Delete, path: self.path(suffix.as_str()), reply: Reply::Unit }
    }

    /// The request for all assets of the release.
    pub fn list(&self) -> (request: Request)
        ensures
            request@ == (RequestView {
                verb: VerbView::Get,
                path: self@.assets_path(),
                reply: Reply::AssetList,
            }),
    {
        let path = self.path("");
        proof {
            reveal_strlit("");
        }
        Request { verb: Verb::Get, path, reply: Reply::AssetList }
    }
}

} // verus!
