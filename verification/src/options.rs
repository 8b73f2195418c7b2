//! The payload that creates or edits a release, and its builder.

use vstd::prelude::*;
use vstd::string::*;

use crate::json::{json_string, quote};

verus! {

/// What a release is created or edited with.
///
/// Only the tag is required. Every other field may be absent, and an absent
/// field leaves no trace in the JSON text of the payload.
#[derive(Debug)]
pub struct ReleaseOptions {
    pub tag_name: String,
    pub target_commitish: Option<String>,
    pub name: Option<String>,
    pub body: Option<String>,
    pub draft: Option<bool>,
    pub prerelease: Option<bool>,
}

/// The mathematical content of a [`ReleaseOptions`].
pub struct ReleaseOptionsView {
    pub tag_name: Seq<char>,
    pub target_commitish: Option<Seq<char>>,
    pub name: Option<Seq<char>>,
    pub body: Option<Seq<char>>,
    pub draft: Option<bool>,
    pub prerelease: Option<bool>,
}

/// The characters of an optional string.
pub open spec fn text_view(text: Option<String>) -> Option<Seq<char>> {
    match text {
        Some(t) => Some(t@),
        None => None,
    }
}

/// The characters of an optional string slice.
pub open spec fn slice_view(text: Option<&str>) -> Option<Seq<char>> {
    match text {
        Some(t) => Some(t@),
        None => None,
    }
}

/// The JSON text of an optional string.
pub open spec fn quoted(text: Option<Seq<char>>) -> Option<Seq<char>> {
    match text {
        Some(t) => Some(json_string(t)),
        None => None,
    }
}

/// The JSON text of a flag.
pub open spec fn flag_text(flag: bool) -> Seq<char> {
    if flag {
        "true"@
    } else {
        "false"@
    }
}

/// The JSON text of an optional flag.
pub open spec fn flag_value(flag: Option<bool>) -> Option<Seq<char>> {
    match flag {
        Some(f) => Some(flag_text(f)),
        None => None,
    }
}

/// One optional member of the payload object. `lead` is all that goes before
/// the value: the comma, the quoted key and the colon. Where the value is
/// absent the member is nothing at all, lead included.
pub open spec fn member(lead: Seq<char>, value: Option<Seq<char>>) -> Seq<char> {
    match value {
        Some(v) => lead + v,
        None => Seq::empty(),
    }
}

/// The JSON object of a payload, given the JSON text of each of its string
/// values. Members come in the order tag, commit, name, body, draft,
/// prerelease.
pub open spec fn payload(
    tag_name: Seq<char>,
    target_commitish: Option<Seq<char>>,
    name: Option<Seq<char>>,
    body: Option<Seq<char>>,
    draft: Option<bool>,
    prerelease: Option<bool>,
) -> Seq<char> {
    "{\"tag_name\":"@ + tag_name
        + member(",\"target_commitish\":"@, target_commitish)
        + member(",\"name\":"@, name)
        + member(",\"body\":"@, body)
        + member(",\"draft\":"@, flag_value(draft))
        + member(",\"prerelease\":"@, flag_value(prerelease))
        + "}"@
}

impl ReleaseOptionsView {
    /// The payload with the given tag and nothing else.
    pub open spec fn tagged(tag: Seq<char>) -> ReleaseOptionsView {
        ReleaseOptionsView {
            tag_name: tag,
            target_commitish: None,
            name: None,
            body: None,
            draft: None,
            prerelease: None,
        }
    }

    /// The JSON text of the payload.
    pub open spec fn json(self) -> Seq<char> {
        payload(
            json_string(self.tag_name),
            quoted(self.target_commitish),
            quoted(self.name),
            quoted(self.body),
            self.draft,
            self.prerelease,
        )
    }
}

impl View for ReleaseOptions {
    type V = ReleaseOptionsView;

    open spec fn view(&self) -> ReleaseOptionsView {
        ReleaseOptionsView {
            tag_name: self.tag_name@,
            target_commitish: text_view(self.target_commitish),
            name: text_view(self.name),
            body: text_view(self.body),
            draft: self.draft,
            prerelease: self.prerelease,
        }
    }
}

impl Default for ReleaseOptions {
    /// The payload with an empty tag and nothing else.
    fn default() -> (options: ReleaseOptions)
        ensures
            options@ == ReleaseOptionsView::tagged(Seq::empty()),
    {
        ReleaseOptions {
            tag_name: String::new(),
            target_commitish: None,
            name: None,
            body: None,
            draft: None,
            prerelease: None,
        }
    }
}

/// An owned copy of an optional string slice.
fn owned(text: Option<&str>) -> (copy: Option<String>)
    ensures
        text_view(copy) == slice_view(text),
{
    match text {
        Some(t) => Some(String::from_str(t)),
        None => None,
    }
}

/// A copy of an optional string.
fn duplicate(text: &Option<String>) -> (copy: Option<String>)
    ensures
        copy == *text,
{
    match text {
        Some(t) => Some(t.clone()),
        None => None,
    }
}

/// The JSON text of an optional string.
fn quote_text(text: &Option<String>) -> (json: Option<String>)
    ensures
        text_view(json) == quoted(text_view(*text)),
{
    match text {
        Some(t) => Some(quote(t.as_str())),
        None => None,
    }
}

/// Appends an optional member to the text of an object under construction.
fn push_member(out: &mut String, lead: &str, value: &Option<String>)
    ensures
        final(out)@ == old(out)@ + member(lead@, text_view(*value)),
{
    match value {
        Some(v) => {
            out.append(lead);
            out.append(v.as_str());
        },
        None => {},
    }
}

/// Appends an optional flag member to the text of an object under
/// construction.
fn push_flag(out: &mut String, lead: &str, flag: Option<bool>)
    ensures
        final(out)@ == old(out)@ + member(lead@, flag_value(flag)),
{
    match flag {
        Some(f) => {
            out.append(lead);
            if f {
                out.append("true");
            } else {
                out.append("false");
            }
        },
        None => {},
    }
}

/// Writes the JSON object of a payload from the JSON text of its string
/// values.
///
/// `tag_name` and the string members are taken as they are: they must already
/// be JSON text. A member whose value is `None` is left out together with its
/// key and comma.
pub fn compose_payload(
    tag_name: &str,
    target_commitish: &Option<String>,
    name: &Option<String>,
    body: &Option<String>,
    draft: Option<bool>,
    prerelease: Option<bool>,
) -> (json: String)
    ensures
        json@ == payload(
            tag_name@,
            text_view(*target_commitish),
            text_view(*name),
            text_view(*body),
            draft,
            prerelease,
        ),
{
    let mut out = String::from_str("{\"tag_name\":");
    out.append(tag_name);
    push_member(&mut out, ",\"target_commitish\":", target_commitish);
    push_member(&mut out, ",\"name\":", name);
    push_member(&mut out, ",\"body\":", body);
    push_flag(&mut out, ",\"draft\":", draft);
    push_flag(&mut out, ",\"prerelease\":", prerelease);
    out.append("}");
    out
}

impl ReleaseOptions {
    /// A payload with every field given.
    pub fn new(
        tag: &str,
        commit: Option<&str>,
        name: Option<&str>,
        body: Option<&str>,
        draft: Option<bool>,
        prerelease: Option<bool>,
    ) -> (options: ReleaseOptions)
        ensures
            options@ == (ReleaseOptionsView {
                tag_name: tag@,
                target_commitish: slice_view(commit),
                name: slice_view(name),
                body: slice_view(body),
                draft,
                prerelease,
            }),
    {
        ReleaseOptions {
            tag_name: String::from_str(tag),
            target_commitish: owned(commit),
            name: owned(name),
            body: owned(body),
            draft,
            prerelease,
        }
    }

    /// A builder that starts from the given tag.
    pub fn builder(tag: &str) -> (builder: ReleaseOptionsBuilder)
        ensures
            builder@ == ReleaseOptionsView::tagged(tag@),
    {
        ReleaseOptionsBuilder::new(tag)
    }

    /// The JSON text of the payload, as it is sent in a request body.
    pub fn to_json(&self) -> (json: String)
        ensures
            json@ == self@.json(),
    {
        let tag = quote(self.tag_name.as_str());
        let commit = quote_text(&self.target_commitish);
        let name = quote_text(&self.name);
        let body = quote_text(&self.body);
        compose_payload(tag.as_str(), &commit, &name, &body, self.draft, self.prerelease)
    }
}

/// Collects the fields of a [`ReleaseOptions`] one at a time.
///
/// A setter touches its own field and no other. `build` hands out a snapshot
/// and leaves the builder as it was, so the builder may be used again.
pub struct ReleaseOptionsBuilder(ReleaseOptions);

impl View for ReleaseOptionsBuilder {
    type V = ReleaseOptionsView;

    closed spec fn view(&self) -> ReleaseOptionsView {
        self.0@
    }
}

impl ReleaseOptionsBuilder {
    /// A builder that holds the given tag and nothing else.
    pub fn new(tag: &str) -> (builder: ReleaseOptionsBuilder)
        ensures
            builder@ == ReleaseOptionsView::tagged(tag@),
    {
        ReleaseOptionsBuilder(
            ReleaseOptions {
                tag_name: String::from_str(tag),
                target_commitish: None,
                name: None,
                body: None,
                draft: None,
                prerelease: None,
            },
        )
    }

    /// Sets the commit or branch that the tag is created from.
    pub fn commitish(&mut self, commit: &str) -> (builder: &mut ReleaseOptionsBuilder)
        ensures
            builder@ == (ReleaseOptionsView { target_commitish: Some(commit@), ..old(self)@ }),
            *final(self) == *final(builder),
    {
        self.0.target_commitish = Some(String::from_str(commit));
        self
    }

    /// Sets the display name of the release.
    pub fn name(&mut self, name: &str) -> (builder: &mut ReleaseOptionsBuilder)
        ensures
            builder@ == (ReleaseOptionsView { name: Some(name@), ..old(self)@ }),
            *final(self) == *final(builder),
    {
        self.0.name = Some(String::from_str(name));
        self
    }

    /// Sets the text that describes the release.
    pub fn body(&mut self, body: &str) -> (builder: &mut ReleaseOptionsBuilder)
        ensures
            builder@ == (ReleaseOptionsView { body: Some(body@), ..old(self)@ }),
            *final(self) == *final(builder),
    {
        self.0.body = Some(String::from_str(body));
        self
    }

    /// Sets whether the release is a draft.
    pub fn draft(&mut self, draft: bool) -> (builder: &mut ReleaseOptionsBuilder)
        ensures
            builder@ == (ReleaseOptionsView { draft: Some(draft), ..old(self)@ }),
            *final(self) == *final(builder),
    {
        self.0.draft = Some(draft);
        self
    }

    /// Sets whether the release is a prerelease.
    pub fn prerelease(&mut self, pre: bool) -> (builder: &mut ReleaseOptionsBuilder)
        ensures
            builder@ == (ReleaseOptionsView { prerelease: Some(pre), ..old(self)@ }),
            *final(self) == *final(builder),
    {
        self.0.prerelease = Some(pre);
        self
    }

    /// A snapshot of what the builder holds.
    pub fn build(&self) -> (options: ReleaseOptions)
        ensures
            options@ == self@,
    {
        ReleaseOptions {
            tag_name: self.0.tag_name.clone(),
            target_commitish: duplicate(&self.0.target_commitish),
            name: duplicate(&self.0.name),
            body: duplicate(&self.0.body),
            draft: self.0.draft,
            prerelease: self.0.prerelease,
        }
    }
}

} // verus!
