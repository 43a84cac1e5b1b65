//! Unclamped region descriptors: conversion of relative range descriptors
//! into `(offset, count)` regions measured against a bare element count.
//!
//! Unlike span resolution, region conversion does not validate against the
//! parent extent; it is the raw arithmetic form, and ill-formed descriptors
//! (a half-open range running backwards, an inclusive range ending at the
//! integer maximum) are excluded by precondition rather than collapsed.

use vstd::prelude::*;

use crate::span::AnyRange;

verus! {

/// An `(offset, count)` pair over the device-size domain, not validated
/// against any parent extent.
#[derive(Clone, Copy, Debug, PartialEq, Eq, Structural)]
pub struct Region {
    pub offset: u64,
    pub count: u64,
}

impl Region {
    pub fn new(offset: u64, count: u64) -> (r: Region)
        ensures
            r.offset == offset,
            r.count == count,
    {
        Region { offset, count }
    }
}

/// Whether a descriptor is in the domain of region conversion: half-open and
/// inclusive ranges must run forwards, and inclusive end bounds must leave
/// room for the `+ 1` in the count.
pub open spec fn spec_region_in_domain(r: AnyRange) -> bool {
    match r {
        AnyRange::Range { start, end } => start <= end,
        AnyRange::RangeInclusive { start, end } => start <= end && end < u64::MAX,
        AnyRange::RangeToInclusive { end } => end < u64::MAX,
        _ => true,
    }
}

/// The region denoted by a descriptor against a parent element count.  Only
/// the open-end and full shapes consult the count.
pub open spec fn spec_region_of(r: AnyRange, count: u64) -> Region {
    match r {
        AnyRange::Value(i) => Region { offset: i, count: 1 },
        AnyRange::Range { start, end } => Region {
            offset: start,
            count: crate::span::spec_saturating_diff(end, start),
        },
        AnyRange::RangeInclusive { start, end } => Region {
            offset: start,
            count: (crate::span::spec_saturating_diff(end, start) + 1) as u64,
        },
        AnyRange::RangeTo { end } => Region { offset: 0, count: end },
        AnyRange::RangeToInclusive { end } => Region { offset: 0, count: (end + 1) as u64 },
        AnyRange::RangeFrom { start } => Region {
            offset: start,
            count: crate::span::spec_saturating_diff(count, start),
        },
        AnyRange::RangeFull => Region { offset: 0, count },
    }
}

/// Conversion of a relative range descriptor into an unclamped region
/// against a bare parent element count.
pub trait ToRegion: Sized {
    /// Whether `self` is in the domain of the conversion.
    spec fn spec_region_domain(self) -> bool;

    /// The mathematical meaning of converting `self` against `count`.
    spec fn spec_to_region(self, count: u64) -> Region;

    /// Convert `self` into a region relative to a parent of `count`
    /// elements.
    fn to_region(self, count: u64) -> (r: Region)
        requires
            self.spec_region_domain(),
        ensures
            r == self.spec_to_region(count),
    ;
}

impl ToRegion for u64 {
    open spec fn spec_region_domain(self) -> bool {
        true
    }

    open spec fn spec_to_region(self, count: u64) -> Region {
        Region { offset: self, count: 1 }
    }

    fn to_region(self, count: u64) -> (r: Region) {
        Region { offset: self, count: 1 }
    }
}

impl ToRegion for AnyRange {
    open spec fn spec_region_domain(self) -> bool {
        spec_region_in_domain(self)
    }

    open spec fn spec_to_region(self, count: u64) -> Region {
        spec_region_of(self, count)
    }

    fn to_region(self, count: u64) -> (r: Region) {
        match self {
            AnyRange::Value(i) => Region { offset: i, count: 1 },
            AnyRange::Range { start, end } => Region { offset: start, count: end - start },
            AnyRange::RangeInclusive { start, end } => Region {
                offset: start,
                count: end - start + 1,
            },
            AnyRange::RangeTo { end } => Region { offset: 0, count: end },
            AnyRange::RangeToInclusive { end } => Region { offset: 0, count: end + 1 },
            AnyRange::RangeFrom { start } => {
                let c = if start <= count {
                    count - start
                } else {
                    0
                };
                Region { offset: start, count: c }
            },
            AnyRange::RangeFull => Region { offset: 0, count },
        }
    }
}

} // verus!
