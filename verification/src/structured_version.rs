//! Structured versions, read and ordered by the `version-compare` crate.
//!
//! A structured version is a text such as `1.2.3` or `3.28.1-1` that the
//! crate can split into numbered parts. What it accepts and how it orders
//! two versions is the crate's business; the library gives both a name and
//! reasons about them through the two functions at the end of this file.

use vstd::prelude::*;

verus! {

/// How one version stands to another.
#[derive(Debug, Clone, Copy, PartialEq, Eq, Structural)]
pub enum VersionOrder {
    Less,
    Equal,
    Greater,
}

/// Whether `version_compare::Version::from` reads `text` as a version.
pub uninterp spec fn parses_as_version(text: Seq<char>) -> bool;

/// What `version_compare::compare` makes of `a` against `b`: how `a`
/// stands to `b`, or `None` where one of the two is no version.
pub uninterp spec fn version_order(a: Seq<char>, b: Seq<char>) -> Option<VersionOrder>;

/// Calls `version_compare::Version::from` and tells whether it read `text`
/// as a version.
///
/// Trusted: the answer depends on the text alone.
#[verifier::external_body]
pub(crate) fn is_version(text: &str) -> (b: bool)
    ensures
        b == parses_as_version(text@),
{
    version_compare::Version::from(text).is_some()
}

/// Calls `version_compare::compare`, which reads both texts as versions
/// and compares them part by part.
///
/// Trusted: the answer depends on the two texts alone, and there is one
/// exactly when `Version::from` reads both texts as versions; `compare`
/// fails in no other way, and answers with less, equal or greater only.
/// A version compared with the same text is equal to it: the parts are the
/// same one by one, and neither side has any left over.
#[verifier::external_body]
pub(crate) fn compare_versions(a: &str, b: &str) -> (r: Option<VersionOrder>)
    ensures
        r == version_order(a@, b@),
        r is Some <==> (parses_as_version(a@) && parses_as_version(b@)),
        (a@ == b@ && parses_as_version(a@)) ==> r == Some(VersionOrder::Equal),
{
    match version_compare::compare(a, b) {
        Ok(version_compare::Cmp::Lt) => Some(VersionOrder::Less),
        Ok(version_compare::Cmp::Eq) => Some(VersionOrder::Equal),
        Ok(version_compare::Cmp::Gt) => Some(VersionOrder::Greater),
        _ => None,
    }
}

} // verus!
