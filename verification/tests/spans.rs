use cvk::AnyRange;
use cvk::Region;
use cvk::Span;
use cvk::ToRegion;
use cvk::ToSpan;

#[test]
fn span_new_holds_fields() {
    let s = Span::new(10, 5);
    assert_eq!(s.offset, 10);
    assert_eq!(s.count, 5);
}

#[test]
fn span_invalid_is_zero_zero() {
    assert_eq!(Span::invalid(), Span::new(0, 0));
}

#[test]
fn resolve_index_within_parent() {
    let parent = Span::new(10, 5);
    assert_eq!(2u64.to_span(parent), Span::new(12, 1));
}

#[test]
fn resolve_index_out_of_bounds_is_invalid() {
    let parent = Span::new(10, 5);
    assert_eq!(5u64.to_span(parent), Span::invalid());
}

#[test]
fn resolve_range_within_parent() {
    // Concrete scenario: {offset: 10, count: 5} resolved with 1..3.
    let parent = Span::new(10, 5);
    let r = AnyRange::Range { start: 1, end: 3 };
    assert_eq!(r.to_span(parent), Span::new(11, 2));
}

#[test]
fn resolve_range_exceeding_parent_is_invalid() {
    // Concrete scenario: {offset: 10, count: 5} resolved with 4..6.
    let parent = Span::new(10, 5);
    let r = AnyRange::Range { start: 4, end: 6 };
    assert_eq!(r.to_span(parent), Span::new(0, 0));
}

#[test]
fn resolve_backwards_range_is_empty() {
    let parent = Span::new(10, 5);
    let r = AnyRange::Range { start: 3, end: 1 };
    let s = r.to_span(parent);
    assert_eq!(s.count, 0);
}

#[test]
fn resolve_inclusive_within_parent() {
    let parent = Span::new(10, 5);
    let r = AnyRange::RangeInclusive { start: 1, end: 3 };
    assert_eq!(r.to_span(parent), Span::new(11, 3));
}

#[test]
fn resolve_inclusive_at_count_is_invalid() {
    let parent = Span::new(10, 5);
    let r = AnyRange::RangeInclusive { start: 1, end: 5 };
    assert_eq!(r.to_span(parent), Span::invalid());
}

#[test]
fn resolve_to_keeps_parent_offset() {
    let parent = Span::new(10, 5);
    assert_eq!(AnyRange::RangeTo { end: 4 }.to_span(parent), Span::new(10, 4));
    assert_eq!(AnyRange::RangeTo { end: 6 }.to_span(parent), Span::invalid());
}

#[test]
fn resolve_to_inclusive_keeps_parent_offset() {
    let parent = Span::new(10, 5);
    assert_eq!(
        AnyRange::RangeToInclusive { end: 3 }.to_span(parent),
        Span::new(10, 4)
    );
    assert_eq!(
        AnyRange::RangeToInclusive { end: 5 }.to_span(parent),
        Span::invalid()
    );
}

#[test]
fn resolve_from_covers_rest_of_parent() {
    let parent = Span::new(10, 5);
    assert_eq!(AnyRange::RangeFrom { start: 2 }.to_span(parent), Span::new(12, 3));
    assert_eq!(AnyRange::RangeFrom { start: 5 }.to_span(parent), Span::invalid());
}

#[test]
fn resolve_full_is_identity() {
    let parent = Span::new(10, 5);
    assert_eq!(AnyRange::RangeFull.to_span(parent), parent);
}

#[test]
fn resolve_relative_span_descriptor() {
    let parent = Span::new(10, 5);
    assert_eq!(Span::new(1, 3).to_span(parent), Span::new(11, 3));
    assert_eq!(Span::new(3, 3).to_span(parent), Span::invalid());
}

#[test]
fn resolutions_stay_within_parent() {
    // Containment: every resolved span is empty or lies inside the parent.
    let parent = Span::new(8, 4);
    let descriptors = vec![
        AnyRange::Value(0),
        AnyRange::Value(9),
        AnyRange::Range { start: 1, end: 4 },
        AnyRange::Range { start: 9, end: 2 },
        AnyRange::RangeInclusive { start: 0, end: 3 },
        AnyRange::RangeTo { end: 4 },
        AnyRange::RangeToInclusive { end: 2 },
        AnyRange::RangeFrom { start: 3 },
        AnyRange::RangeFull,
    ];
    for d in descriptors {
        let s = d.to_span(parent);
        assert!(
            s.count == 0
                || (parent.offset <= s.offset
                    && s.offset + s.count <= parent.offset + parent.count)
        );
    }
}

#[test]
fn derivation_composes_with_direct_resolution() {
    // Stepwise derivation equals resolving the composed relative span.
    let a = Span::new(10, 5);
    let child = Span::new(1, 3);
    let descriptors = vec![
        AnyRange::Value(1),
        AnyRange::Range { start: 0, end: 2 },
        AnyRange::RangeInclusive { start: 1, end: 2 },
        AnyRange::RangeTo { end: 2 },
        AnyRange::RangeFrom { start: 1 },
        AnyRange::RangeFull,
    ];
    for d in descriptors {
        let stepwise = d.to_span(child.to_span(a));
        let composed = d.to_span(child).to_span(a);
        assert!(stepwise == composed || (stepwise.count == 0 && composed.count == 0));
    }
}

#[test]
fn descriptor_derivation_composes() {
    // Two descriptor-shaped derivations, stepwise versus composed.
    let a = Span::new(10, 5);
    let pairs = vec![
        (
            AnyRange::RangeFrom { start: 1 },
            AnyRange::RangeTo { end: 3 },
        ),
        (
            AnyRange::Range { start: 0, end: 4 },
            AnyRange::RangeInclusive { start: 1, end: 2 },
        ),
        (AnyRange::RangeFull, AnyRange::Value(2)),
        (
            AnyRange::Range { start: 2, end: 9 },
            AnyRange::RangeFull,
        ),
    ];
    for (r1, r2) in pairs {
        let stepwise = r2.to_span(r1.to_span(a));
        let child = r1.to_span(Span::new(0, a.count));
        let composed = r2.to_span(child).to_span(a);
        assert!(stepwise == composed || (stepwise.count == 0 && composed.count == 0));
    }
}

#[test]
fn region_new_holds_fields() {
    let r = Region::new(3, 7);
    assert_eq!(r.offset, 3);
    assert_eq!(r.count, 7);
}

#[test]
fn region_from_index() {
    assert_eq!(4u64.to_region(10), Region::new(4, 1));
}

#[test]
fn region_from_range_shapes() {
    assert_eq!(
        AnyRange::Range { start: 2, end: 6 }.to_region(10),
        Region::new(2, 4)
    );
    assert_eq!(
        AnyRange::RangeInclusive { start: 2, end: 6 }.to_region(10),
        Region::new(2, 5)
    );
    assert_eq!(AnyRange::RangeTo { end: 6 }.to_region(10), Region::new(0, 6));
    assert_eq!(
        AnyRange::RangeToInclusive { end: 6 }.to_region(10),
        Region::new(0, 7)
    );
    assert_eq!(AnyRange::RangeFrom { start: 3 }.to_region(10), Region::new(3, 7));
    assert_eq!(AnyRange::RangeFrom { start: 12 }.to_region(10), Region::new(12, 0));
    assert_eq!(AnyRange::RangeFull.to_region(10), Region::new(0, 10));
}
