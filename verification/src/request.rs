//! What a leaf operation asks of the transport.
//!
//! No function of this crate touches the network. An operation that would
//! issue a request returns the request instead, complete with verb, path and
//! body, and the caller hands it to the transport of its choice.

use vstd::prelude::*;

verus! {

/// `hyper`'s `Mime`, the media type of an uploaded asset. Nothing here looks
/// inside one: it is taken from the caller and put into the request as it is.
#[verifier::external_type_specification]
#[verifier::external_body]
pub struct ExMime(hyper::mime::Mime);

/// What the body of the response is to be decoded as.
#[derive(Debug, Clone, Copy, PartialEq, Eq, Structural)]
pub enum Reply {
    /// Nothing: the response only signals success.
    Unit,
    /// One release.
    Release,
    /// The releases of a repository, in the order of the response.
    ReleaseList,
    /// One asset.
    Asset,
    /// The assets of a release, in the order of the response.
    AssetList,
}

/// The operation of the transport that a request goes to, with the body
/// that the operation takes.
#[derive(Debug, PartialEq)]
pub enum Verb {
    /// Fetch.
    Get,
    /// Create from a JSON body.
    Post { body: String },
    /// Create from a binary body of the given media type.
    PostType { content: Vec<u8>, content_type: hyper::mime::Mime },
    /// Change by a JSON body.
    Patch { body: String },
    /// Remove.
    Delete,
}

/// A request, ready to be sent.
#[derive(Debug, PartialEq)]
pub struct Request {
    pub verb: Verb,
    pub path: String,
    pub reply: Reply,
}

/// The mathematical content of a [`Verb`].
pub enum VerbView {
    Get,
    Post { body: Seq<char> },
    PostType { content: Seq<u8>, content_type: hyper::mime::Mime },
    Patch { body: Seq<char> },
    Delete,
}

/// The mathematical content of a [`Request`].
pub struct RequestView {
    pub verb: VerbView,
    pub path: Seq<char>,
    pub reply: Reply,
}

impl View for Verb {
    type V = VerbView;

    open spec fn view(&self) -> VerbView {
        match *self {
            Verb::Get => VerbView::Get,
            Verb::Post { body } => VerbView::Post { body: body@ },
            Verb::PostType { content, content_type } => VerbView::PostType {
                content: content@,
                content_type,
            },
            Verb::Patch { body } => VerbView::Patch { body: body@ },
            Verb::Delete => VerbView::Delete,
        }
    }
}

impl View for Request {
    type V = RequestView;

    open spec fn view(&self) -> RequestView {
        RequestView { verb: self.verb@, path: self.path@, reply: self.reply }
    }
}

/// The content of an asset could not be read.
///
/// An upload whose content cannot be read in full is given up: no request is
/// made for it, neither with part of the content nor with none.
#[derive(Debug, PartialEq)]
pub struct ContentReadError {
    /// Why the read failed, in the words of whoever tried it.
    pub reason: String,
}

} // verus!
