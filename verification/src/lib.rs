//! Typed requests for the releases of a repository and their binary assets.
//!
//! A handle stands for a place in the hierarchy repository, releases,
//! release, assets. It knows its coordinate and holds a client. Going down
//! the hierarchy makes a new handle and sends nothing; a leaf operation makes
//! the [`Request`] that the client is to send.

pub mod assets;
pub mod json;
pub mod laws;
pub mod options;
pub mod path;
pub mod records;
pub mod releases;
pub mod request;
pub mod text;
pub mod users;

pub use crate::assets::Assets;
pub use crate::options::{ReleaseOptions, ReleaseOptionsBuilder};
pub use crate::records::{Asset, Release};
pub use crate::releases::{ReleaseRef, Releases};
pub use crate::request::{ContentReadError, Reply, Request, Verb};
pub use crate::users::User;
