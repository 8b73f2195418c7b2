//! What holds of paths and payloads whatever the inputs.

use vstd::prelude::*;
use vstd::string::*;

use crate::json::json_string;
use crate::options::{flag_text, ReleaseOptionsView};
use crate::path::{item_suffix, ReleaseCoordinate, RepositoryCoordinate};
use crate::text::decimal;

verus! {

/// Going from a repository to its release `id` and on to that release's
/// assets arrives where naming the release outright arrives, and the path of
/// the assets is `/repos/{owner}/{repo}/releases/{id}/assets`.
///
/// `Releases::get` and `ReleaseRef::assets` state the two steps over the same
/// coordinates, and `Assets::path` states its result over `assets_path`.
pub proof fn descent_reaches_assets(owner: Seq<char>, repo: Seq<char>, id: u64)
    ensures
        (RepositoryCoordinate { owner, repo }).release(id) == (ReleaseCoordinate {
            owner,
            repo,
            id,
        }),
        (RepositoryCoordinate { owner, repo }).release(id).assets_path() == "/repos/"@ + owner
            + "/"@ + repo + "/releases/"@ + decimal(id as nat) + "/assets"@,
{
    reveal_strlit("/releases/");
    reveal_strlit("/releases");
    reveal_strlit("/");
}

/// A path does not depend on the depth at which it is put together: what a
/// deeper handle makes of `more` is what the handle above it makes of its
/// own segment followed by `more`.
pub proof fn path_extends_parent(release: ReleaseCoordinate, more: Seq<char>)
    ensures
        release.assets_path() + more == release.release_path() + ("/assets"@ + more),
        release.release_path() + more == release.repository().releases_path() + (item_suffix(
            release.id,
        ) + more),
{
}

/// A payload that holds a tag and nothing else is the object with the one
/// member `tag_name`: a field that is absent leaves no key behind.
pub proof fn absent_fields_leave_no_keys(tag: Seq<char>)
    ensures
        ReleaseOptionsView::tagged(tag).json() == "{\"tag_name\":"@ + json_string(tag) + "}"@,
{
}

/// A payload that holds a tag and the two flags is the object with those
/// three members, in that order: setting the flags brings no other member
/// with it.
pub proof fn flags_bring_no_other_member(tag: Seq<char>, draft: bool, prerelease: bool)
    ensures
        (ReleaseOptionsView {
            draft: Some(draft),
            prerelease: Some(prerelease),
            ..ReleaseOptionsView::tagged(tag)
        }).json() == "{\"tag_name\":"@ + json_string(tag) + ",\"draft\":"@ + flag_text(draft)
            + ",\"prerelease\":"@ + flag_text(prerelease) + "}"@,
{
}

} // verus!
