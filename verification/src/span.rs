//! Span arithmetic: pure conversion of relative range descriptors into
//! absolute `(offset, count)` spans validated against a parent extent.
//!
//! A resolution that would escape the parent extent collapses to the invalid
//! sentinel span `{0, 0}`, which downstream operations treat as a zero-length
//! no-op.  Resolution is total: no input panics or overflows.

use vstd::prelude::*;

verus! {

/// An absolute `(offset, count)` pair describing a contiguous sub-range of a
/// fixed-size extent.  Offsets and counts are in element units, using the
/// device-size domain (`u64`).
#[derive(Clone, Copy, Debug, PartialEq, Eq, Structural)]
pub struct Span {
    pub offset: u64,
    pub count: u64,
}

impl Span {
    /// The sentinel produced when a range cannot be resolved within its
    /// parent; it is empty, so it propagates harmlessly as a no-op.
    pub open spec fn spec_invalid() -> Span {
        Span { offset: 0, count: 0 }
    }

    /// One past the last element position covered by this span, as a
    /// mathematical integer (never overflows).
    pub open spec fn spec_end(self) -> int {
        self.offset + self.count
    }

    pub fn new(offset: u64, count: u64) -> (s: Span)
        ensures
            s.offset == offset,
            s.count == count,
    {
        Span { offset, count }
    }

    pub fn invalid() -> (s: Span)
        ensures
            s == Span::spec_invalid(),
    {
        Span { offset: 0, count: 0 }
    }
}

/// `end - start`, saturating at zero when `start > end`.
pub open spec fn spec_saturating_diff(end: u64, start: u64) -> u64 {
    if start <= end {
        (end - start) as u64
    } else {
        0
    }
}

/// Resolution of a single index `i` against a parent span: valid iff
/// `i < parent.count`, yielding the one-element span at `parent.offset + i`.
pub open spec fn spec_resolve_index(i: u64, parent: Span) -> Span {
    if i < parent.count && parent.offset + i <= u64::MAX {
        Span { offset: (parent.offset + i) as u64, count: 1 }
    } else {
        Span::spec_invalid()
    }
}

/// Resolution of a half-open range `[start, end)`: valid iff both bounds lie
/// within `parent.count`; the count saturates at zero when `start > end`.
pub open spec fn spec_resolve_range(start: u64, end: u64, parent: Span) -> Span {
    if end <= parent.count && start <= parent.count && parent.offset + start <= u64::MAX {
        Span { offset: (parent.offset + start) as u64, count: spec_saturating_diff(end, start) }
    } else {
        Span::spec_invalid()
    }
}

/// Resolution of an inclusive range `[start, end]`: valid iff both bounds
/// lie strictly within `parent.count`.
pub open spec fn spec_resolve_inclusive(start: u64, end: u64, parent: Span) -> Span {
    if end < parent.count && start < parent.count && parent.offset + start <= u64::MAX {
        Span {
            offset: (parent.offset + start) as u64,
            count: (spec_saturating_diff(end, start) + 1) as u64,
        }
    } else {
        Span::spec_invalid()
    }
}

/// Resolution of an open-start range `..end`: the offset stays at the parent
/// start.
pub open spec fn spec_resolve_to(end: u64, parent: Span) -> Span {
    if end <= parent.count {
        Span { offset: parent.offset, count: end }
    } else {
        Span::spec_invalid()
    }
}

/// Resolution of an open-start inclusive range `..=end`.
pub open spec fn spec_resolve_to_inclusive(end: u64, parent: Span) -> Span {
    if end < parent.count {
        Span { offset: parent.offset, count: (end + 1) as u64 }
    } else {
        Span::spec_invalid()
    }
}

/// Resolution of an open-end range `start..`: valid iff
/// `start < parent.count`, covering the rest of the parent.
pub open spec fn spec_resolve_from(start: u64, parent: Span) -> Span {
    if start < parent.count && parent.offset + start <= u64::MAX {
        Span {
            offset: (parent.offset + start) as u64,
            count: (parent.count - start) as u64,
        }
    } else {
        Span::spec_invalid()
    }
}

/// Resolution of a relative span `{offset, count}` against a parent: valid
/// iff it fits inside the parent extent.
pub open spec fn spec_resolve_span(rel: Span, parent: Span) -> Span {
    if rel.offset + rel.count <= parent.count && parent.offset + rel.offset <= u64::MAX {
        Span { offset: (parent.offset + rel.offset) as u64, count: rel.count }
    } else {
        Span::spec_invalid()
    }
}

/// A relative range descriptor: the shapes a caller can use to address a
/// sub-range of a parent extent.
#[derive(Clone, Copy, Debug, PartialEq, Eq, Structural)]
pub enum AnyRange {
    /// A single index.
    Value(u64),
    /// A half-open range `start..end`.
    Range { start: u64, end: u64 },
    /// An inclusive range `start..=end`.
    RangeInclusive { start: u64, end: u64 },
    /// An open-start range `..end`.
    RangeTo { end: u64 },
    /// An open-start inclusive range `..=end`.
    RangeToInclusive { end: u64 },
    /// An open-end range `start..`.
    RangeFrom { start: u64 },
    /// The full parent range.
    RangeFull,
}

/// Resolution of any descriptor shape against a parent span.
pub open spec fn spec_resolve_any(r: AnyRange, parent: Span) -> Span {
    match r {
        AnyRange::Value(i) => spec_resolve_index(i, parent),
        AnyRange::Range { start, end } => spec_resolve_range(start, end, parent),
        AnyRange::RangeInclusive { start, end } => spec_resolve_inclusive(start, end, parent),
        AnyRange::RangeTo { end } => spec_resolve_to(end, parent),
        AnyRange::RangeToInclusive { end } => spec_resolve_to_inclusive(end, parent),
        AnyRange::RangeFrom { start } => spec_resolve_from(start, parent),
        AnyRange::RangeFull => parent,
    }
}

/// Conversion of a relative range descriptor into an absolute span, validated
/// against a parent span.
pub trait ToSpan: Sized {
    /// The mathematical meaning of resolving `self` against `parent`.
    spec fn spec_to_span(self, parent: Span) -> Span;

    /// Resolve `self` against `parent`, yielding an absolute span or the
    /// invalid sentinel.
    fn to_span(self, parent: Span) -> (s: Span)
        ensures
            s == self.spec_to_span(parent),
    ;
}

impl ToSpan for u64 {
    open spec fn spec_to_span(self, parent: Span) -> Span {
        spec_resolve_index(self, parent)
    }

    fn to_span(self, parent: Span) -> (s: Span) {
        if self < parent.count && self <= u64::MAX - parent.offset {
            Span { offset: parent.offset + self, count: 1 }
        } else {
            Span::invalid()
        }
    }
}

impl ToSpan for Span {
    open spec fn spec_to_span(self, parent: Span) -> Span {
        spec_resolve_span(self, parent)
    }

    fn to_span(self, parent: Span) -> (s: Span) {
        if self.offset <= parent.count && self.count <= parent.count - self.offset
            && self.offset <= u64::MAX - parent.offset {
            Span { offset: parent.offset + self.offset, count: self.count }
        } else {
            Span::invalid()
        }
    }
}

/// `end - start`, saturating at zero when `start > end`.
fn saturating_diff(end: u64, start: u64) -> (d: u64)
    ensures
        d == spec_saturating_diff(end, start),
{
    if start <= end {
        end - start
    } else {
        0
    }
}

impl ToSpan for AnyRange {
    open spec fn spec_to_span(self, parent: Span) -> Span {
        spec_resolve_any(self, parent)
    }

    fn to_span(self, parent: Span) -> (s: Span) {
        match self {
            AnyRange::Value(i) => i.to_span(parent),
            AnyRange::Range { start, end } => {
                if end <= parent.count && start <= parent.count
                    && start <= u64::MAX - parent.offset {
                    Span { offset: parent.offset + start, count: saturating_diff(end, start) }
                } else {
                    Span::invalid()
                }
            },
            AnyRange::RangeInclusive { start, end } => {
                if end < parent.count && start < parent.count
                    && start <= u64::MAX - parent.offset {
                    Span {
                        offset: parent.offset + start,
                        count: saturating_diff(end, start) + 1,
                    }
                } else {
                    Span::invalid()
                }
            },
            AnyRange::RangeTo { end } => {
                if end <= parent.count {
                    Span { offset: parent.offset, count: end }
                } else {
                    Span::invalid()
                }
            },
            AnyRange::RangeToInclusive { end } => {
                if end < parent.count {
                    Span { offset: parent.offset, count: end + 1 }
                } else {
                    Span::invalid()
                }
            },
            AnyRange::RangeFrom { start } => {
                if start < parent.count && start <= u64::MAX - parent.offset {
                    Span { offset: parent.offset + start, count: parent.count - start }
                } else {
                    Span::invalid()
                }
            },
            AnyRange::RangeFull => parent,
        }
    }
}

/// Containment law: resolving any relative range descriptor against a parent
/// span yields either an empty span (the invalid sentinel included) or a span
/// lying entirely within the parent's element range
/// `[parent.offset, parent.offset + parent.count)`.
pub proof fn lemma_resolution_contained(r: AnyRange, parent: Span)
    ensures
        ({
            let s = spec_resolve_any(r, parent);
            s.count == 0 || (parent.offset <= s.offset && s.spec_end() <= parent.spec_end())
        }),
{
}

/// Composition law for region derivation: let `child` be a relative span that
/// fits inside parent `a`.  Resolving a descriptor `r` stepwise — first
/// `child` against `a`, then `r` against that absolute result — agrees with
/// resolving against `a` the composed relative span obtained by resolving `r`
/// against `child` itself.  The two sides are equal whenever either is
/// nonempty; degenerate derivations leave both sides empty, and empty spans
/// are no-ops throughout the library.
pub proof fn lemma_derivation_composes(r: AnyRange, child: Span, a: Span)
    requires
        child.spec_end() <= a.count,
    ensures
        ({
            let stepwise = spec_resolve_any(r, spec_resolve_span(child, a));
            let composed = spec_resolve_span(spec_resolve_any(r, child), a);
            stepwise == composed || (stepwise.count == 0 && composed.count == 0)
        }),
{
}

/// The composition law for valid relative spans, exactly: when `b` fits
/// inside `a`'s extent and `c` fits inside `b`'s, chaining the two
/// derivations equals resolving the composed relative span directly against
/// `a`, and both produce the span at `a.offset + b.offset + c.offset` of
/// `c`'s count.  The offset-sum bound is the machine limit of the `u64`
/// domain; beyond it resolution collapses to the sentinel.
pub proof fn lemma_span_derivation_exact(c: Span, b: Span, a: Span)
    requires
        b.spec_end() <= a.count,
        c.spec_end() <= b.count,
        a.offset + b.offset + c.offset <= u64::MAX,
    ensures
        spec_resolve_span(c, spec_resolve_span(b, a)) == (Span {
            offset: (a.offset + b.offset + c.offset) as u64,
            count: c.count,
        }),
        spec_resolve_span(c, spec_resolve_span(b, a)) == spec_resolve_span(
            spec_resolve_span(c, b),
            a,
        ),
{
}

/// The composition law stated over two arbitrary descriptors: deriving with
/// `r1` and then `r2` stepwise agrees with resolving, against `a` directly,
/// the relative span composed from `r1` and `r2` over `a`'s extent — exactly
/// when either side is nonempty, both sides empty otherwise.
pub proof fn lemma_derivation_composes_ranges(r1: AnyRange, r2: AnyRange, a: Span)
    ensures
        ({
            let stepwise = spec_resolve_any(r2, spec_resolve_any(r1, a));
            let child = spec_resolve_any(r1, Span { offset: 0, count: a.count });
            let composed = spec_resolve_span(spec_resolve_any(r2, child), a);
            stepwise == composed || (stepwise.count == 0 && composed.count == 0)
        }),
{
    let rel = Span { offset: 0, count: a.count };
    let child = spec_resolve_any(r1, rel);
    // The relative resolution always fits the extent it was resolved against.
    assert(child.spec_end() <= a.count) by {
        match r1 {
            AnyRange::Value(..) => {},
            AnyRange::Range { .. } => {},
            AnyRange::RangeInclusive { .. } => {},
            AnyRange::RangeTo { .. } => {},
            AnyRange::RangeToInclusive { .. } => {},
            AnyRange::RangeFrom { .. } => {},
            AnyRange::RangeFull => {},
        }
    }
    lemma_derivation_composes(r2, child, a);
    if spec_resolve_any(r1, a) != spec_resolve_span(child, a) {
        // The two forms of the first derivation differ only degenerately:
        // both are empty, and anything resolved against an empty parent is
        // empty as well.
        assert(spec_resolve_any(r1, a).count == 0 && spec_resolve_span(child, a).count == 0) by {
            match r1 {
                AnyRange::Value(..) => {},
                AnyRange::Range { .. } => {},
                AnyRange::RangeInclusive { .. } => {},
                AnyRange::RangeTo { .. } => {},
                AnyRange::RangeToInclusive { .. } => {},
                AnyRange::RangeFrom { .. } => {},
                AnyRange::RangeFull => {},
            }
        }
        assert(spec_resolve_any(r2, spec_resolve_any(r1, a)).count == 0 && spec_resolve_any(
            r2,
            spec_resolve_span(child, a),
        ).count == 0) by {
            match r2 {
                AnyRange::Value(..) => {},
                AnyRange::Range { .. } => {},
                AnyRange::RangeInclusive { .. } => {},
                AnyRange::RangeTo { .. } => {},
                AnyRange::RangeToInclusive { .. } => {},
                AnyRange::RangeFrom { .. } => {},
                AnyRange::RangeFull => {},
            }
        }
    }
}

} // verus!
