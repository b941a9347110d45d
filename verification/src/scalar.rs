//! The scalar types that intervals range over.

use vstd::prelude::*;
use crate::digits::{append_int, int_text};

verus! {

/// A totally ordered numeric type: the bounds of an interval are of such a type.
///
/// Each operation comes with a specification function that says what it computes.
/// A type that overrides them and sets [`Scalar::obeys_scalar_spec`] to `true`
/// proves that its operations compute exactly that. A type whose arithmetic has
/// no exact description (binary floating point) keeps the defaults: its
/// operations must then accept every input, the library runs the same steps on
/// it, and the contracts say nothing of the values.
pub trait Scalar: Sized + Copy {
    /// Whether the operations of this type compute what the specification
    /// functions below say.
    open spec fn obeys_scalar_spec() -> bool {
        false
    }

    /// The number zero.
    open spec fn zero_spec() -> Self {
        arbitrary()
    }

    /// The strict order of the type.
    open spec fn below_spec(self, other: Self) -> bool {
        false
    }

    /// Whether `self + rhs` can be represented.
    open spec fn plus_req(self, rhs: Self) -> bool {
        true
    }

    /// The sum `self + rhs`, where it can be represented.
    open spec fn plus_spec(self, rhs: Self) -> Self {
        self
    }

    /// Whether `self * rhs` can be represented.
    open spec fn times_req(self, rhs: Self) -> bool {
        true
    }

    /// The product `self * rhs`, where it can be represented.
    open spec fn times_spec(self, rhs: Self) -> Self {
        self
    }

    /// The number as it is printed.
    open spec fn text_spec(self) -> Seq<char> {
        Seq::empty()
    }

    /// The number zero.
    fn zero() -> (r: Self)
        ensures
            Self::obeys_scalar_spec() ==> r == Self::zero_spec(),
    ;

    /// Whether the two numbers are equal.
    fn same(&self, other: &Self) -> (r: bool)
        ensures
            Self::obeys_scalar_spec() ==> r == (*self == *other),
    ;

    /// Whether `self` is strictly less than `other`.
    fn below(&self, other: &Self) -> (r: bool)
        ensures
            Self::obeys_scalar_spec() ==> r == self.below_spec(*other),
    ;

    /// Whether the sum of the two numbers can be represented.
    fn plus_fits(&self, rhs: &Self) -> (r: bool)
        ensures
            Self::obeys_scalar_spec() ==> r == self.plus_req(*rhs),
    ;

    /// Whether the product of the two numbers can be represented.
    fn times_fits(&self, rhs: &Self) -> (r: bool)
        ensures
            Self::obeys_scalar_spec() ==> r == self.times_req(*rhs),
    ;

    /// The sum of the two numbers.
    fn plus(self, rhs: Self) -> (r: Self)
        requires
            Self::obeys_scalar_spec() ==> self.plus_req(rhs),
        ensures
            Self::obeys_scalar_spec() ==> r == self.plus_spec(rhs),
    ;

    /// The product of the two numbers.
    fn times(self, rhs: Self) -> (r: Self)
        requires
            Self::obeys_scalar_spec() ==> self.times_req(rhs),
        ensures
            Self::obeys_scalar_spec() ==> r == self.times_spec(rhs),
    ;

    /// Prints the number.
    fn to_text(&self) -> (s: String)
        ensures
            Self::obeys_scalar_spec() ==> s@ == self.text_spec(),
    ;
}

/// A scalar type in which an amount can be measured: it names the numbers at
/// which the printed unit changes, and those by which an amount is rescaled.
pub trait Magnitude: Scalar {
    /// The number 1.
    open spec fn one_spec() -> Self {
        arbitrary()
    }

    /// The number 0.1.
    open spec fn tenth_spec() -> Self {
        arbitrary()
    }

    /// The number 0.01.
    open spec fn hundredth_spec() -> Self {
        arbitrary()
    }

    /// The number 100.
    open spec fn hundred_spec() -> Self {
        arbitrary()
    }

    /// The number 1000.
    open spec fn thousand_spec() -> Self {
        arbitrary()
    }

    /// The number 1.
    fn one() -> (r: Self)
        ensures
            Self::obeys_scalar_spec() ==> r == Self::one_spec(),
    ;

    /// The number 0.1.
    fn tenth() -> (r: Self)
        ensures
            Self::obeys_scalar_spec() ==> r == Self::tenth_spec(),
    ;

    /// The number 0.01.
    fn hundredth() -> (r: Self)
        ensures
            Self::obeys_scalar_spec() ==> r == Self::hundredth_spec(),
    ;

    /// The number 100.
    fn hundred() -> (r: Self)
        ensures
            Self::obeys_scalar_spec() ==> r == Self::hundred_spec(),
    ;

    /// The number 1000.
    fn thousand() -> (r: Self)
        ensures
            Self::obeys_scalar_spec() ==> r == Self::thousand_spec(),
    ;
}

/// `a <= b` in the order of `T`.
pub open spec fn at_most<T: Scalar>(a: T, b: T) -> bool {
    a.below_spec(b) || a == b
}

/// The order of `T` is a strict total order.
pub open spec fn strictly_ordered<T: Scalar>() -> bool {
    &&& forall|a: T| !(#[trigger] a.below_spec(a))
    &&& forall|a: T, b: T, c: T|
        #[trigger] a.below_spec(b) && #[trigger] b.below_spec(c) ==> a.below_spec(c)
    &&& forall|a: T, b: T| #[trigger] a.below_spec(b) || a == b || b.below_spec(a)
}

/// Sums in `T` depend neither on the order nor on the grouping of their terms,
/// wherever they can be represented.
pub open spec fn sums_regroup<T: Scalar>() -> bool {
    &&& forall|a: T, b: T| #[trigger]
        a.plus_req(b) ==> b.plus_req(a) && a.plus_spec(b) == b.plus_spec(a)
    &&& forall|a: T, b: T, c: T|
        a.plus_req(b) && #[trigger] a.plus_spec(b).plus_req(c) && b.plus_req(c)
            && #[trigger] a.plus_req(b.plus_spec(c)) ==> a.plus_spec(b).plus_spec(c)
            == a.plus_spec(b.plus_spec(c))
}

/// Products in `T` distribute over sums, wherever all of them can be
/// represented.
pub open spec fn products_distribute<T: Scalar>() -> bool {
    forall|a: T, b: T, k: T|
        a.plus_req(b) && #[trigger] a.plus_spec(b).times_req(k) && a.times_req(k) && b.times_req(k)
            && #[trigger] a.times_spec(k).plus_req(b.times_spec(k)) ==> a.plus_spec(b).times_spec(k)
            == a.times_spec(k).plus_spec(b.times_spec(k))
}

/// Sums in `T` keep the order of their terms, and so do products by a factor
/// that is not negative, wherever they can be represented.
pub open spec fn arithmetic_keeps_order<T: Scalar>() -> bool {
    &&& forall|a: T, b: T, c: T, d: T|
        at_most(a, b) && at_most(c, d) && #[trigger] a.plus_req(c) && #[trigger] b.plus_req(d)
            ==> at_most(a.plus_spec(c), b.plus_spec(d))
    &&& forall|a: T, b: T, k: T|
        at_most(a, b) && at_most(T::zero_spec(), k) && #[trigger] a.times_req(k)
            && #[trigger] b.times_req(k) ==> at_most(a.times_spec(k), b.times_spec(k))
}

impl Scalar for i64 {
    open spec fn obeys_scalar_spec() -> bool {
        true
    }

    open spec fn zero_spec() -> Self {
        0
    }

    open spec fn below_spec(self, other: Self) -> bool {
        self < other
    }

    open spec fn plus_req(self, rhs: Self) -> bool {
        i64::MIN <= self + rhs <= i64::MAX
    }

    open spec fn plus_spec(self, rhs: Self) -> Self {
        (self + rhs) as i64
    }

    open spec fn times_req(self, rhs: Self) -> bool {
        i64::MIN <= self * rhs <= i64::MAX
    }

    open spec fn times_spec(self, rhs: Self) -> Self {
        (self * rhs) as i64
    }

    open spec fn text_spec(self) -> Seq<char> {
        int_text(self as int)
    }

    fn zero() -> (r: Self) {
        0
    }

    fn same(&self, other: &Self) -> (r: bool) {
        *self == *other
    }

    fn below(&self, other: &Self) -> (r: bool) {
        *self < *other
    }

    fn plus_fits(&self, rhs: &Self) -> (r: bool) {
        self.checked_add(*rhs).is_some()
    }

    fn times_fits(&self, rhs: &Self) -> (r: bool) {
        self.checked_mul(*rhs).is_some()
    }

    fn plus(self, rhs: Self) -> (r: Self) {
        self + rhs
    }

    fn times(self, rhs: Self) -> (r: Self) {
        self * rhs
    }

    fn to_text(&self) -> (s: String) {
        let mut s = String::new();
        append_int(&mut s, *self);
        s
    }
}

/// The integers are strictly and totally ordered.
pub proof fn lemma_i64_strictly_ordered()
    ensures
        strictly_ordered::<i64>(),
{
}

/// Sums of integers depend neither on order nor on grouping.
pub proof fn lemma_i64_sums_regroup()
    ensures
        sums_regroup::<i64>(),
{
}

/// Products of integers distribute over sums.
pub proof fn lemma_i64_products_distribute()
    ensures
        products_distribute::<i64>(),
{
    assert forall|a: i64, b: i64, k: i64|
        a.plus_req(b) && #[trigger] a.plus_spec(b).times_req(k) && a.times_req(k) && b.times_req(k)
            && #[trigger] a.times_spec(k).plus_req(b.times_spec(k)) implies a.plus_spec(
        b,
    ).times_spec(k) == a.times_spec(k).plus_spec(b.times_spec(k)) by {
        assert((a + b) * k == a * k + b * k) by (nonlinear_arith);
    }
}

/// Sums and products of integers keep the order.
pub proof fn lemma_i64_arithmetic_keeps_order()
    ensures
        arithmetic_keeps_order::<i64>(),
{
    assert forall|a: i64, b: i64, k: i64|
        at_most(a, b) && at_most(<i64 as Scalar>::zero_spec(), k) && #[trigger] a.times_req(k)
            && #[trigger] b.times_req(k) implies at_most(a.times_spec(k), b.times_spec(k)) by {
        assert(a * k <= b * k) by (nonlinear_arith)
            requires
                a <= b,
                0 <= k,
        ;
    }
}

} // verus!
