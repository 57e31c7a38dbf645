//! npm semver checks, answered by `node_semver`.

use vstd::prelude::*;

verus! {

/// Whether `node_semver` parses `version` as a version, `range` as a range,
/// and finds the version inside the range.
pub uninterp spec fn semver_satisfies(version: Seq<char>, range: Seq<char>) -> bool;

/// Whether `node_semver` parses both texts as versions and orders the first
/// at or above the second.
pub uninterp spec fn semver_at_least(version: Seq<char>, floor: Seq<char>) -> bool;

/// Calls `node_semver::Version::from_str`, `node_semver::Range::from_str`
/// and `Version::satisfies`: false when either text does not parse. The
/// contract claims only that the answer is a function of the two texts.
#[verifier::external_body]
pub fn version_satisfies(version: &str, range: &str) -> (r: bool)
    ensures
        r == semver_satisfies(version@, range@),
{
    match (version.parse::<node_semver::Version>(), range.parse::<node_semver::Range>()) {
        (Ok(version), Ok(range)) => version.satisfies(&range),
        _ => false,
    }
}

/// Calls `node_semver::Version::from_str` on both texts and compares them
/// with `Version`'s `>=`: false when either text does not parse. The
/// contract claims only that the answer is a function of the two texts.
#[verifier::external_body]
pub(crate) fn version_at_least(version: &str, floor: &str) -> (r: bool)
    ensures
        r == semver_at_least(version@, floor@),
{
    match (version.parse::<node_semver::Version>(), floor.parse::<node_semver::Version>()) {
        (Ok(version), Ok(floor)) => version >= floor,
        _ => false,
    }
}

} // verus!
