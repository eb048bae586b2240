use thread_group::span::{Span, NANOS_PER_SEC};

#[test]
fn span_parts_round_trip() {
    let s = Span::from_parts(3, 250_000_000);
    assert_eq!(s.secs(), 3);
    assert_eq!(s.subsec_nanos(), 250_000_000);
    assert!(!s.is_zero());
    assert!(Span::zero().is_zero());
    assert!(NANOS_PER_SEC == 1_000_000_000);
}

#[test]
fn span_sub_without_borrow() {
    let a = Span::from_parts(5, 700);
    let b = Span::from_parts(2, 200);
    assert_eq!(a.saturating_sub(&b), Span::from_parts(3, 500));
}

#[test]
fn span_sub_with_borrow() {
    let a = Span::from_parts(1, 200_000_000);
    let b = Span::from_parts(0, 500_000_000);
    let r = a.saturating_sub(&b);
    assert_eq!(r.secs(), 0);
    assert_eq!(r.subsec_nanos(), 700_000_000);
}

#[test]
fn span_sub_saturates_at_zero() {
    let a = Span::from_parts(0, 10_000_000);
    let b = Span::from_parts(0, 50_000_000);
    assert!(a.saturating_sub(&b).is_zero());
    assert!(a.saturating_sub(&a).is_zero());
}

#[test]
fn span_covers_compares_lengths() {
    let a = Span::from_parts(1, 0);
    let b = Span::from_parts(0, 999_999_999);
    assert!(a.covers(&b));
    assert!(!b.covers(&a));
    assert!(a.covers(&a));
}
