//! The semantic-version oracle: parsing version and range literals, and
//! deciding whether a version satisfies a range. All of it is done by the
//! `semver` crate; this module states what the engine relies on.

use vstd::prelude::*;
use crate::version::Version;

verus! {

#[verifier::external_type_specification]
#[verifier::external_body]
pub struct ExVersionReq(semver::VersionReq);

/// What `semver::Version::parse` makes of a text: the numeric parts with the
/// pre-release and build texts, or the error's message.
pub uninterp spec fn semver_parse(text: Seq<char>) -> Result<(u64, u64, u64, Seq<char>, Seq<char>), Seq<char>>;

/// The error message of `semver::VersionReq::parse` on a text, if it fails.
pub uninterp spec fn range_parse_error(text: Seq<char>) -> Option<Seq<char>>;

/// Whether the range parsed from `text` matches the version
/// `major.minor.patch` (no pre-release, no build metadata), as
/// `semver::VersionReq::matches` decides it.
pub uninterp spec fn range_matches(text: Seq<char>, major: u64, minor: u64, patch: u64) -> bool;

/// Relies on `semver::Version::parse`: the numeric parts, pre-release and
/// build metadata of a version literal, or the message of its error.
#[verifier::external_body]
pub(crate) fn semver_version(text: &str) -> (r: Result<(u64, u64, u64, String, String), String>)
    ensures
        match r {
            Ok(p) => semver_parse(text@) == Ok::<_, Seq<char>>((p.0, p.1, p.2, p.3@, p.4@)),
            Err(m) => semver_parse(text@) == Err::<(u64, u64, u64, Seq<char>, Seq<char>), _>(m@),
        },
{
    match semver::Version::parse(text) {
        Ok(v) => Ok((v.major, v.minor, v.patch, v.pre.as_str().to_string(), v.build.as_str().to_string())),
        Err(e) => Err(e.to_string()),
    }
}

/// A version range as written in a constraint annotation, e.g.
/// `">=0.2, <1.8.0"`: comma-separated comparisons that must all hold.
#[derive(Debug)]
pub struct Constraint {
    text: String,
    req: semver::VersionReq,
}

impl View for Constraint {
    type V = Seq<char>;

    /// The literal the range was parsed from.
    closed spec fn view(&self) -> Seq<char> {
        self.text@
    }
}

/// Relies on `semver::VersionReq::parse`: a range literal either parses, or
/// fails with a message.
#[verifier::external_body]
pub(crate) fn semver_range(text: &str) -> (r: Result<Constraint, String>)
    ensures
        match r {
            Ok(c) => range_parse_error(text@) is None && c@ == text@,
            Err(m) => range_parse_error(text@) == Some(m@),
        },
{
    match semver::VersionReq::parse(text) {
        Ok(req) => Ok(Constraint { text: text.to_string(), req }),
        Err(e) => Err(e.to_string()),
    }
}

impl Constraint {
    /// Relies on `semver::VersionReq::matches`, applied to the range that
    /// `semver::VersionReq::parse` made of this constraint's literal.
    #[verifier::external_body]
    pub(crate) fn matches(&self, v: &Version) -> (r: bool)
        ensures
            r == range_matches(self@, v.major, v.minor, v.patch),
    {
        self.req.matches(&semver::Version::new(v.major, v.minor, v.patch))
    }
}

} // verus!
