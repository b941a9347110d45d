//! Exact decimal numbers with six fractional digits.

use vstd::prelude::*;
use crate::digits::{absolute, append_digit, append_nat, digit_char, nat_text};
use crate::amount::Amount;
use crate::scalar::{
    arithmetic_keeps_order, at_most, strictly_ordered, sums_regroup, Magnitude, Scalar,
};

verus! {

/// How many millionths make one.
pub const MICROS_PER_UNIT: i64 = 1_000_000;

/// The most fractional digits that a [`Decimal`] holds.
pub const FRACTION_DIGITS: u8 = 6;

/// A decimal number held as a count of millionths.
///
/// Sums are exact. A product is cut off after the sixth fractional digit, towards
/// zero.
#[derive(Clone, Copy, Debug, PartialEq, Eq, Structural)]
pub struct Decimal {
    /// The number in millionths.
    pub micros: i64,
}

/// Ten to the power `n`.
pub open spec fn pow10(n: nat) -> nat
    decreases n,
{
    if n == 0 {
        1
    } else {
        10 * pow10((n - 1) as nat)
    }
}

/// The quotient `p / d` with its fractional part cut off, whatever the sign of
/// `p`.
pub open spec fn truncated_quotient(p: int, d: int) -> int {
    if p >= 0 {
        p / d
    } else {
        -((-p) / d)
    }
}

/// The digits of `fraction / 10^width` behind the decimal point, down to the
/// last one that is not zero.
pub open spec fn fraction_text(fraction: nat, width: nat) -> Seq<char>
    decreases width,
{
    if fraction == 0 || width == 0 {
        Seq::empty()
    } else {
        let unit = pow10((width - 1) as nat);
        seq![digit_char(fraction / unit)] + fraction_text(fraction % unit, (width - 1) as nat)
    }
}

/// A count of millionths in decimal notation: a minus sign for a negative
/// number, the whole part, and, unless it is zero, a point and the fractional
/// part without trailing zeros.
pub open spec fn decimal_text(micros: int) -> Seq<char> {
    let size = (if micros < 0 { -micros } else { micros }) as nat;
    let sign = if micros < 0 { seq!['-'] } else { Seq::<char>::empty() };
    let whole = nat_text(size / (MICROS_PER_UNIT as nat));
    let fraction = size % (MICROS_PER_UNIT as nat);
    if fraction == 0 {
        sign + whole
    } else {
        sign + whole + seq!['.'] + fraction_text(fraction, FRACTION_DIGITS as nat)
    }
}

/// The first seven powers of ten.
pub proof fn lemma_pow10_values()
    ensures
        pow10(0) == 1,
        pow10(1) == 10,
        pow10(2) == 100,
        pow10(3) == 1_000,
        pow10(4) == 10_000,
        pow10(5) == 100_000,
        pow10(6) == 1_000_000,
{
    reveal_with_fuel(pow10, 7);
}

impl Decimal {
    /// What [`Decimal::new`] returns: `mantissa / 10^places`, where `places` is
    /// at most six and the count of millionths fits.
    pub open spec fn new_spec(mantissa: i64, places: u8) -> Option<Decimal> {
        if places <= FRACTION_DIGITS && i64::MIN <= mantissa * pow10(
            (FRACTION_DIGITS - places) as nat,
        ) <= i64::MAX {
            Some(Decimal { micros: (mantissa * pow10((FRACTION_DIGITS - places) as nat)) as i64 })
        } else {
            None
        }
    }

    /// The number `mantissa / 10^places`, or nothing if it has more than six
    /// fractional digits or is too large.
    pub fn new(mantissa: i64, places: u8) -> (r: Option<Decimal>)
        ensures
            r == Self::new_spec(mantissa, places),
    {
        proof {
            lemma_pow10_values();
        }
        if places > FRACTION_DIGITS {
            return None;
        }
        let factor: i64 = if places == 0 {
            1_000_000
        } else if places == 1 {
            100_000
        } else if places == 2 {
            10_000
        } else if places == 3 {
            1_000
        } else if places == 4 {
            100
        } else if places == 5 {
            10
        } else {
            1
        };
        assert(-0x8000_0000_0000_0000 * 1_000_000 <= mantissa * factor <= 0x8000_0000_0000_0000
            * 1_000_000) by (nonlinear_arith)
            requires
                -0x8000_0000_0000_0000 <= mantissa < 0x8000_0000_0000_0000,
                1 <= factor <= 1_000_000,
        ;
        let wide: i128 = (mantissa as i128) * (factor as i128);
        if wide < i64::MIN as i128 || wide > i64::MAX as i128 {
            None
        } else {
            Some(Decimal { micros: wide as i64 })
        }
    }

}

/// The product of two counts of millionths, as a count of millionths, cut off
/// towards zero.
fn cut_product(a: i64, b: i64) -> (cut: i128)
    ensures
        cut == truncated_quotient(a * b, MICROS_PER_UNIT as int),
{
    assert(-0x4000_0000_0000_0000_0000_0000_0000_0000 <= a * b
        <= 0x4000_0000_0000_0000_0000_0000_0000_0000) by (nonlinear_arith)
        requires
            -0x8000_0000_0000_0000 <= a < 0x8000_0000_0000_0000,
            -0x8000_0000_0000_0000 <= b < 0x8000_0000_0000_0000,
    ;
    let wide: i128 = (a as i128) * (b as i128);
    wide / (MICROS_PER_UNIT as i128)
}

impl Scalar for Decimal {
    open spec fn obeys_scalar_spec() -> bool {
        true
    }

    open spec fn zero_spec() -> Self {
        Decimal { micros: 0 }
    }

    open spec fn below_spec(self, other: Self) -> bool {
        self.micros < other.micros
    }

    open spec fn plus_req(self, rhs: Self) -> bool {
        i64::MIN <= self.micros + rhs.micros <= i64::MAX
    }

    open spec fn plus_spec(self, rhs: Self) -> Self {
        Decimal { micros: (self.micros + rhs.micros) as i64 }
    }

    open spec fn times_req(self, rhs: Self) -> bool {
        i64::MIN <= truncated_quotient(self.micros * rhs.micros, MICROS_PER_UNIT as int)
            <= i64::MAX
    }

    open spec fn times_spec(self, rhs: Self) -> Self {
        Decimal {
            micros: truncated_quotient(self.micros * rhs.micros, MICROS_PER_UNIT as int) as i64,
        }
    }

    open spec fn text_spec(self) -> Seq<char> {
        decimal_text(self.micros as int)
    }

    fn zero() -> (r: Self) {
        Decimal { micros: 0 }
    }

    fn same(&self, other: &Self) -> (r: bool) {
        self.micros == other.micros
    }

    fn below(&self, other: &Self) -> (r: bool) {
        self.micros < other.micros
    }

    fn plus_fits(&self, rhs: &Self) -> (r: bool) {
        self.micros.checked_add(rhs.micros).is_some()
    }

    fn times_fits(&self, rhs: &Self) -> (r: bool) {
        let cut = cut_product(self.micros, rhs.micros);
        i64::MIN as i128 <= cut && cut <= i64::MAX as i128
    }

    fn plus(self, rhs: Self) -> (r: Self) {
        Decimal { micros: self.micros + rhs.micros }
    }

    fn times(self, rhs: Self) -> (r: Self) {
        Decimal { micros: cut_product(self.micros, rhs.micros) as i64 }
    }

    fn to_text(&self) -> (s: String) {
        let size: u64 = absolute(self.micros);
        let mut s = String::new();
        if self.micros < 0 {
            proof {
                reveal_strlit("-");
            }
            s.append("-");
        }
        append_nat(&mut s, size / (MICROS_PER_UNIT as u64));
        let fraction: u64 = size % (MICROS_PER_UNIT as u64);
        let ghost head = s@;
        if fraction != 0 {
            proof {
                reveal_strlit(".");
                lemma_pow10_values();
            }
            s.append(".");
            let mut rest: u64 = fraction;
            let mut unit: u64 = 100_000;
            let mut width: u8 = FRACTION_DIGITS;
            while rest != 0
                invariant
                    width <= FRACTION_DIGITS,
                    rest < pow10(width as nat),
                    width > 0 ==> unit == pow10((width - 1) as nat),
                    s@ + fraction_text(rest as nat, width as nat) == head + seq!['.']
                        + fraction_text(fraction as nat, FRACTION_DIGITS as nat),
                decreases width,
            {
                proof {
                    lemma_pow10_values();
                }
                assert(rest / unit < 10) by (nonlinear_arith)
                    requires
                        rest < 10 * unit,
                        unit > 0,
                ;
                let ghost before = s@;
                append_digit(&mut s, rest / unit);
                assert(before + fraction_text(rest as nat, width as nat) =~= s@ + fraction_text(
                    (rest % unit) as nat,
                    (width - 1) as nat,
                ));
                rest = rest % unit;
                unit = unit / 10;
                width = width - 1;
            }
            assert(s@ =~= head + seq!['.'] + fraction_text(
                fraction as nat,
                FRACTION_DIGITS as nat,
            ));
        }
        s
    }
}

impl Magnitude for Decimal {
    open spec fn one_spec() -> Self {
        Decimal { micros: 1_000_000 }
    }

    open spec fn tenth_spec() -> Self {
        Decimal { micros: 100_000 }
    }

    open spec fn hundredth_spec() -> Self {
        Decimal { micros: 10_000 }
    }

    open spec fn hundred_spec() -> Self {
        Decimal { micros: 100_000_000 }
    }

    open spec fn thousand_spec() -> Self {
        Decimal { micros: 1_000_000_000 }
    }

    fn one() -> (r: Self) {
        Decimal { micros: 1_000_000 }
    }

    fn tenth() -> (r: Self) {
        Decimal { micros: 100_000 }
    }

    fn hundredth() -> (r: Self) {
        Decimal { micros: 10_000 }
    }

    fn hundred() -> (r: Self) {
        Decimal { micros: 100_000_000 }
    }

    fn thousand() -> (r: Self) {
        Decimal { micros: 1_000_000_000 }
    }
}

/// Decimal numbers are strictly and totally ordered.
pub proof fn lemma_decimal_strictly_ordered()
    ensures
        strictly_ordered::<Decimal>(),
{
}

/// Sums of decimal numbers depend neither on order nor on grouping.
pub proof fn lemma_decimal_sums_regroup()
    ensures
        sums_regroup::<Decimal>(),
{
}

/// Sums and products of decimal numbers keep the order.
pub proof fn lemma_decimal_arithmetic_keeps_order()
    ensures
        arithmetic_keeps_order::<Decimal>(),
{
    assert forall|a: Decimal, b: Decimal, k: Decimal|
        at_most(a, b) && at_most(Decimal::zero_spec(), k) && #[trigger] a.times_req(k)
            && #[trigger] b.times_req(k) implies at_most(a.times_spec(k), b.times_spec(k)) by {
        assert(a.micros * k.micros <= b.micros * k.micros) by (nonlinear_arith)
            requires
                a.micros <= b.micros,
                0 <= k.micros,
        ;
    }
}

/// The product of a decimal number and a whole number is exact.
pub proof fn lemma_times_whole(a: Decimal, whole: Decimal, n: int)
    requires
        whole.micros == n * MICROS_PER_UNIT,
    ensures
        truncated_quotient(a.micros * whole.micros, MICROS_PER_UNIT as int) == a.micros * n,
        a.times_req(whole) <==> i64::MIN <= a.micros * n <= i64::MAX,
        a.times_req(whole) ==> a.times_spec(whole).micros == a.micros * n,
{
    assert(a.micros * whole.micros == (a.micros * n) * 1_000_000) by (nonlinear_arith)
        requires
            whole.micros == n * 1_000_000,
    ;
}

/// The largest magnitude, in millionths, that can be multiplied by 1000.
pub const DISPLAY_LIMIT: i64 = 9_223_372_036_854_775;

/// An amount whose bounds are at most nine billion in magnitude can be printed.
pub proof fn lemma_moderate_amount_displays(amount: Amount<Decimal>)
    requires
        -DISPLAY_LIMIT <= amount.value@.lower.micros <= DISPLAY_LIMIT,
        -DISPLAY_LIMIT <= amount.value@.upper.micros <= DISPLAY_LIMIT,
    ensures
        amount.display_req(),
{
    let value = amount.value@;
    lemma_times_whole(value.lower, Decimal::thousand_spec(), 1000);
    lemma_times_whole(value.upper, Decimal::thousand_spec(), 1000);
    lemma_times_whole(value.lower, Decimal::hundred_spec(), 100);
    lemma_times_whole(value.upper, Decimal::hundred_spec(), 100);
}

} // verus!
