//! Which of two version strings is the later release.

use vstd::prelude::*;

verus! {

/// Whether a text is a semantic version: three numbers, with an optional
/// pre-release and optional build metadata.
pub uninterp spec fn semver_valid(text: Seq<char>) -> bool;

/// Whether the first of two semantic versions is ordered after the second.
pub uninterp spec fn semver_exceeds(candidate: Seq<char>, current: Seq<char>) -> bool;

/// `semver::Version::parse`: whether the text is accepted as a version.
#[verifier::external_body]
pub(crate) fn parses_as_version(text: &str) -> (valid: bool)
    ensures
        valid == semver_valid(text@),
{
    semver::Version::parse(text).is_ok()
}

/// The order of `semver::Version`, on two texts that both parse: whether the
/// first version is greater than the second.
#[verifier::external_body]
pub(crate) fn version_exceeds(candidate: &str, current: &str) -> (greater: bool)
    requires
        semver_valid(candidate@),
        semver_valid(current@),
    ensures
        greater == semver_exceeds(candidate@, current@),
{
    match (semver::Version::parse(candidate), semver::Version::parse(current)) {
        (Ok(a), Ok(b)) => a > b,
        _ => false,
    }
}

/// Whether a candidate takes the place of the version that a channel
/// currently shows as its latest. A candidate that is no semantic version
/// never does; one that is replaces a current version that is none, or one
/// that it is ordered after.
pub open spec fn replaces(current: Seq<char>, candidate: Seq<char>) -> bool {
    semver_valid(candidate) && (!semver_valid(current) || semver_exceeds(candidate, current))
}

/// Decides whether a candidate takes the place of the current latest version.
pub fn supersedes(current: &str, candidate: &str) -> (replace: bool)
    ensures
        replace == replaces(current@, candidate@),
{
    if !parses_as_version(candidate) {
        false
    } else if !parses_as_version(current) {
        true
    } else {
        version_exceeds(candidate, current)
    }
}

} // verus!
