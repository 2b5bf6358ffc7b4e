//! Versions of a language or runtime, as `(major, minor)`.

use crate::text::{chars_of, parse_u32, parse_u32_of, split, split_on};
use core::cmp::Ordering;
use vstd::prelude::*;
use vstd::std_specs::cmp::PartialOrdSpecImpl;

verus! {

/// A version, ordered by `major` first and `minor` second.
#[derive(Debug, Clone, Copy, PartialEq, Eq, Structural)]
pub struct Version {
    pub major: u32,
    pub minor: u32,
}

/// Whether `a` comes strictly before `b`.
pub open spec fn version_lt(a: Version, b: Version) -> bool {
    a.major < b.major || (a.major == b.major && a.minor < b.minor)
}

/// Whether `a` comes before `b` or equals it.
pub open spec fn version_le(a: Version, b: Version) -> bool {
    version_lt(a, b) || a == b
}

/// Whether `v` lies in the inclusive range from `min` to `max`; a missing
/// `max` leaves the range open above.
pub open spec fn version_in_range(v: Version, min: Version, max: Option<Version>) -> bool {
    version_le(min, v) && match max {
        Some(m) => version_le(v, m),
        None => true,
    }
}

/// The version that the text `s` denotes: its first two pieces between dots,
/// each read as a `u32`. Text with fewer than two pieces, or with a first or
/// second piece that is no number, denotes none.
pub open spec fn parse_version_of(s: Seq<char>) -> Option<Version> {
    let parts = split_on(s, '.');
    if parts.len() >= 2 && parse_u32_of(parts[0]) is Some && parse_u32_of(parts[1]) is Some {
        Some(Version { major: parse_u32_of(parts[0])->0, minor: parse_u32_of(parts[1])->0 })
    } else {
        None
    }
}

impl Version {
    /// Reads a version such as `3.11`; pieces after the second are ignored.
    pub fn parse(s: &str) -> (r: Option<Version>)
        ensures
            r == parse_version_of(s@),
    {
        let chars = chars_of(s);
        let parts = split(&chars, '.');
        if parts.len() >= 2 {
            assert(crate::text::rows(parts@)[0] == parts@[0]@);
            assert(crate::text::rows(parts@)[1] == parts@[1]@);
            let major = parse_u32(&parts[0]);
            let minor = parse_u32(&parts[1]);
            match (major, minor) {
                (Some(major), Some(minor)) => Some(Version { major, minor }),
                _ => None,
            }
        } else {
            None
        }
    }

    /// Tests `min <= self <= max`, where a missing `max` bounds nothing.
    pub fn in_range(&self, min: Version, max: Option<Version>) -> (r: bool)
        ensures
            r == version_in_range(*self, min, max),
    {
        if self.before(&min) {
            return false;
        }
        if let Some(max) = max {
            if max.before(self) {
                return false;
            }
        }
        true
    }

    /// Tests whether `self` comes strictly before `other`.
    pub fn before(&self, other: &Version) -> (r: bool)
        ensures
            r == version_lt(*self, *other),
    {
        self.major < other.major || (self.major == other.major && self.minor < other.minor)
    }
}

impl PartialOrd for Version {
    fn partial_cmp(&self, other: &Self) -> (r: Option<Ordering>) {
        if self.before(other) {
            Some(Ordering::Less)
        } else if other.before(self) {
            Some(Ordering::Greater)
        } else {
            Some(Ordering::Equal)
        }
    }
}

impl PartialOrdSpecImpl for Version {
    open spec fn obeys_partial_cmp_spec() -> bool {
        true
    }

    open spec fn partial_cmp_spec(&self, other: &Self) -> Option<Ordering> {
        if version_lt(*self, *other) {
            Some(Ordering::Less)
        } else if version_lt(*other, *self) {
            Some(Ordering::Greater)
        } else {
            Some(Ordering::Equal)
        }
    }
}

/// The order of versions is total: of two versions one comes before the
/// other, or they are equal, and never two of these at once.
pub proof fn lemma_version_order_total(a: Version, b: Version)
    ensures
        version_lt(a, b) || version_lt(b, a) || a == b,
        !(version_lt(a, b) && version_lt(b, a)),
        !(version_lt(a, b) && a == b),
{
}

/// The order of versions is transitive.
pub proof fn lemma_version_order_transitive(a: Version, b: Version, c: Version)
    requires
        version_le(a, b),
        version_le(b, c),
    ensures
        version_le(a, c),
{
}

/// A version lies in a closed range exactly if it is neither before the
/// lower bound nor after the upper one.
pub proof fn lemma_in_range_closed(v: Version, min: Version, max: Version)
    ensures
        version_in_range(v, min, Some(max)) <==> !version_lt(v, min) && !version_lt(max, v),
{
}

/// A range without an upper bound holds every version from `min` on.
pub proof fn lemma_in_range_unbounded(v: Version, min: Version)
    ensures
        version_in_range(v, min, None) <==> version_le(min, v),
{
}

} // verus!
