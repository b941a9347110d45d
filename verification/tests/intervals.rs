use gemisch::amount::{Comparison, Range};
use gemisch::Decimal;

fn dec(mantissa: i64, places: u8) -> Decimal {
    Decimal::new(mantissa, places).unwrap()
}

#[test]
fn new_keeps_both_bounds() {
    let r = Range::new(2i64, 5i64);
    assert_eq!(r.lower(), 2);
    assert_eq!(r.upper(), 5);
}

#[test]
fn from_scalar_is_a_single_point() {
    let r = Range::from_scalar(7i64);
    assert_eq!(r.lower(), 7);
    assert_eq!(r.upper(), 7);
}

#[test]
fn point_prints_without_dash() {
    assert_eq!(Range::from_scalar(7i64).to_display_string(), "7");
    assert_eq!(Range::from_scalar(-7i64).to_display_string(), "-7");
    assert_eq!(Range::from_scalar(dec(15, 1)).to_display_string(), "1.5");
    assert_eq!(Range::new(4i64, 4i64).to_display_string(), "4");
}

#[test]
fn interval_prints_bounds_with_dash() {
    assert_eq!(Range::new(2i64, 5i64).to_display_string(), "2-5");
    assert_eq!(Range::new(-3i64, -1i64).to_display_string(), "-3--1");
    assert_eq!(Range::new(dec(25, 2), dec(5, 1)).to_display_string(), "0.25-0.5");
}

#[test]
fn sum_is_bound_by_bound() {
    let r = Range::new(1i64, 2i64).add(Range::new(3i64, 4i64));
    assert_eq!(r.lower(), 4);
    assert_eq!(r.upper(), 6);
}

#[test]
fn scaling_is_bound_by_bound() {
    let r = Range::new(1i64, 2i64).scale(3);
    assert_eq!(r.lower(), 3);
    assert_eq!(r.upper(), 6);
}

#[test]
fn sum_is_associative_and_commutative() {
    let a = Range::new(1i64, 2i64);
    let b = Range::new(-10i64, 40i64);
    let c = Range::new(7i64, 7i64);
    let left = a.add(b).add(c);
    let right = a.add(b.add(c));
    assert_eq!((left.lower(), left.upper()), (-2, 49));
    assert_eq!((right.lower(), right.upper()), (-2, 49));
    let swapped = b.add(a);
    assert_eq!((swapped.lower(), swapped.upper()), (-9, 42));
}

#[test]
fn scaling_distributes_over_sum() {
    let a = Range::new(1i64, 2i64);
    let b = Range::new(3i64, 4i64);
    let left = a.add(b).scale(5);
    let right = a.scale(5).add(b.scale(5));
    assert_eq!((left.lower(), left.upper()), (20, 30));
    assert_eq!((right.lower(), right.upper()), (20, 30));
}

#[test]
fn interval_below_scalar_is_less() {
    assert_eq!(Range::new(2i64, 5i64).compare_to_scalar(&6), Comparison::Less);
    assert_eq!(Range::from_scalar(5i64).compare_to_scalar(&6), Comparison::Less);
}

#[test]
fn interval_above_scalar_is_greater() {
    assert_eq!(Range::new(2i64, 5i64).compare_to_scalar(&1), Comparison::Greater);
    assert_eq!(Range::from_scalar(2i64).compare_to_scalar(&1), Comparison::Greater);
}

#[test]
fn point_at_scalar_is_equal() {
    assert_eq!(Range::from_scalar(3i64).compare_to_scalar(&3), Comparison::Equal);
    assert_eq!(Range::new(3i64, 3i64).compare_to_scalar(&3), Comparison::Equal);
}

#[test]
fn scalar_inside_interval_is_incomparable() {
    let r = Range::new(2i64, 5i64);
    assert_eq!(r.compare_to_scalar(&3), Comparison::Incomparable);
    assert_eq!(r.compare_to_scalar(&2), Comparison::Incomparable);
    assert_eq!(r.compare_to_scalar(&5), Comparison::Incomparable);
}

#[test]
fn decimal_interval_compares_by_value() {
    let r = Range::new(dec(2, 1), dec(5, 1));
    assert_eq!(r.compare_to_scalar(&dec(1, 0)), Comparison::Less);
    assert_eq!(r.compare_to_scalar(&dec(1, 1)), Comparison::Greater);
    assert_eq!(r.compare_to_scalar(&dec(3, 1)), Comparison::Incomparable);
    assert_eq!(Range::from_scalar(dec(50, 2)).compare_to_scalar(&dec(5, 1)), Comparison::Equal);
}

#[test]
fn well_formed_means_lower_at_most_upper() {
    assert!(Range::new(2i64, 5i64).is_well_formed());
    assert!(Range::from_scalar(2i64).is_well_formed());
    assert!(!Range::new(5i64, 2i64).is_well_formed());
}

#[test]
fn inverted_interval_compares_by_its_upper_bound_first() {
    assert_eq!(Range::new(5i64, 2i64).compare_to_scalar(&3), Comparison::Less);
}

#[test]
fn extreme_integers_print_in_full() {
    assert_eq!(Range::from_scalar(i64::MIN).to_display_string(), "-9223372036854775808");
    assert_eq!(Range::from_scalar(i64::MAX).to_display_string(), "9223372036854775807");
    assert_eq!(Range::from_scalar(0i64).to_display_string(), "0");
    assert_eq!(Range::new(10i64, 1000i64).to_display_string(), "10-1000");
}

#[test]
fn interval_is_copied_not_moved() {
    let a = Range::new(1i64, 2i64);
    let b = a;
    let c = a.clone();
    assert_eq!((a.lower(), a.upper()), (b.lower(), b.upper()));
    assert_eq!((a.lower(), a.upper()), (c.lower(), c.upper()));
}

#[test]
fn conversion_from_a_scalar_is_a_single_point() {
    let r = Range::from(7i64);
    assert_eq!((r.lower(), r.upper()), (7, 7));
    let q: Range<Decimal> = dec(2, 1).into();
    assert_eq!(q.to_display_string(), "0.2");
}

#[test]
fn interval_can_be_rebuilt_from_its_bounds() {
    let r = Range::new(dec(2, 1), dec(5, 1));
    let again = Range::new(r.lower(), r.upper());
    assert_eq!((again.lower(), again.upper()), (dec(2, 1), dec(5, 1)));
}

#[test]
fn comparison_follows_the_three_tests_in_order() {
    assert_eq!(Comparison::from_tests(true, false, false), Comparison::Equal);
    assert_eq!(Comparison::from_tests(true, true, true), Comparison::Equal);
    assert_eq!(Comparison::from_tests(false, true, false), Comparison::Less);
    assert_eq!(Comparison::from_tests(false, true, true), Comparison::Less);
    assert_eq!(Comparison::from_tests(false, false, true), Comparison::Greater);
    assert_eq!(Comparison::from_tests(false, false, false), Comparison::Incomparable);
}

#[test]
fn sum_that_does_not_fit_is_foreseen() {
    let top = Range::new(1i64, i64::MAX);
    assert!(top.can_add(&Range::new(-1i64, 0i64)));
    assert!(!top.can_add(&Range::new(0i64, 1i64)));
    assert!(!Range::new(i64::MIN, 0i64).can_add(&Range::new(-1i64, 0i64)));
    let sum = top.add(Range::new(-1i64, 0i64));
    assert_eq!((sum.lower(), sum.upper()), (0, i64::MAX));
}

#[test]
fn product_that_does_not_fit_is_foreseen() {
    let r = Range::new(-3i64, i64::MAX / 2);
    assert!(r.can_scale(&2));
    assert!(!r.can_scale(&3));
    assert!(!r.can_scale(&-3));
    assert!(Range::new(i64::MIN, 0i64).can_scale(&1));
    assert!(!Range::new(i64::MIN, 0i64).can_scale(&-1));
    let doubled = r.scale(2);
    assert_eq!((doubled.lower(), doubled.upper()), (-6, i64::MAX - 1));
}
