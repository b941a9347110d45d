//! Intervals of magnitude and amounts measured in a unit.

use vstd::prelude::*;
use crate::scalar::{
    arithmetic_keeps_order, at_most, products_distribute, strictly_ordered, sums_regroup, Magnitude,
    Scalar,
};

verus! {

/// How an interval lies relative to a scalar.
///
/// An interval is a region of the number line, so the order is partial: a scalar
/// inside an interval of more than one point is neither below, above nor equal.
#[derive(Clone, Copy, Debug, PartialEq, Eq, Structural)]
pub enum Comparison {
    /// The whole interval lies below the scalar.
    Less,
    /// The interval is the single point that the scalar names.
    Equal,
    /// The whole interval lies above the scalar.
    Greater,
    /// The scalar falls within the interval, which has more than one point.
    Incomparable,
}

impl Comparison {
    /// How an interval lies relative to a scalar, from three tests on its
    /// bounds: it is equal if it is the single point that the scalar names;
    /// else less if its upper bound is below the scalar; else greater if its
    /// lower bound is above the scalar; else incomparable.
    pub open spec fn from_tests_spec(
        point_at_scalar: bool,
        upper_below: bool,
        lower_above: bool,
    ) -> Comparison {
        if point_at_scalar {
            Comparison::Equal
        } else if upper_below {
            Comparison::Less
        } else if lower_above {
            Comparison::Greater
        } else {
            Comparison::Incomparable
        }
    }

    /// How an interval lies relative to a scalar, from three tests on its
    /// bounds.
    pub fn from_tests(
        point_at_scalar: bool,
        upper_below: bool,
        lower_above: bool,
    ) -> (r: Comparison)
        ensures
            r == Self::from_tests_spec(point_at_scalar, upper_below, lower_above),
    {
        if point_at_scalar {
            Comparison::Equal
        } else if upper_below {
            Comparison::Less
        } else if lower_above {
            Comparison::Greater
        } else {
            Comparison::Incomparable
        }
    }
}

/// The mathematical model of an interval: its two bounds.
pub struct Bounds<T> {
    pub lower: T,
    pub upper: T,
}

impl<T: Scalar> Bounds<T> {
    /// The interval that holds the single point `value`.
    pub open spec fn point(value: T) -> Self {
        Bounds { lower: value, upper: value }
    }

    /// The lower bound does not exceed the upper one.
    pub open spec fn well_formed(self) -> bool {
        at_most(self.lower, self.upper)
    }

    /// Whether both bounds of the sum can be represented.
    pub open spec fn sum_req(self, rhs: Self) -> bool {
        self.lower.plus_req(rhs.lower) && self.upper.plus_req(rhs.upper)
    }

    /// The sum of two intervals, bound by bound.
    pub open spec fn sum(self, rhs: Self) -> Self {
        Bounds { lower: self.lower.plus_spec(rhs.lower), upper: self.upper.plus_spec(rhs.upper) }
    }

    /// Whether both bounds of the product can be represented.
    pub open spec fn scaled_req(self, factor: T) -> bool {
        self.lower.times_req(factor) && self.upper.times_req(factor)
    }

    /// The product of an interval and a scalar, bound by bound.
    pub open spec fn scaled(self, factor: T) -> Self {
        Bounds { lower: self.lower.times_spec(factor), upper: self.upper.times_spec(factor) }
    }

    /// The interval compared with a scalar. It is equal to the scalar if it is
    /// that single point, less if its upper bound is below the scalar, greater if
    /// its lower bound is above it, and incomparable otherwise.
    pub open spec fn compare(self, scalar: T) -> Comparison {
        Comparison::from_tests_spec(
            self.lower == self.upper && self.lower == scalar,
            self.upper.below_spec(scalar),
            scalar.below_spec(self.lower),
        )
    }

    /// The interval as it is printed: a single point as that number, any other
    /// interval as its bounds with a dash between them.
    pub open spec fn text(self) -> Seq<char> {
        if self.lower == self.upper {
            self.lower.text_spec()
        } else {
            self.lower.text_spec() + seq!['-'] + self.upper.text_spec()
        }
    }
}

/// A two-sided numeric range.
///
/// Nothing keeps the lower bound from exceeding the upper one; the operations
/// are defined for every pair of bounds, and mean an interval only where
/// [`Bounds::well_formed`] holds.
#[derive(Debug)]
pub struct Range<T> {
    lower: T,
    upper: T,
}

impl<T: Copy> Clone for Range<T> {
    fn clone(&self) -> (r: Self)
        ensures
            r == *self,
    {
        *self
    }
}

impl<T: Copy> Copy for Range<T> {

}

impl<T> View for Range<T> {
    type V = Bounds<T>;

    closed spec fn view(&self) -> Bounds<T> {
        Bounds { lower: self.lower, upper: self.upper }
    }
}

impl<T: Scalar> Range<T> {
    /// The interval between two bounds.
    pub fn new(lower: T, upper: T) -> (r: Self)
        ensures
            r@ == (Bounds { lower, upper }),
    {
        Range { lower, upper }
    }

    /// The interval that holds the single point `value`.
    pub fn from_scalar(value: T) -> (r: Self)
        ensures
            r@ == Bounds::point(value),
    {
        Range { lower: value, upper: value }
    }

    /// The lower bound.
    pub fn lower(&self) -> (r: T)
        ensures
            r == self@.lower,
    {
        self.lower
    }

    /// The upper bound.
    pub fn upper(&self) -> (r: T)
        ensures
            r == self@.upper,
    {
        self.upper
    }

    /// Whether the lower bound does not exceed the upper one.
    pub fn is_well_formed(&self) -> (r: bool)
        ensures
            T::obeys_scalar_spec() ==> r == self@.well_formed(),
    {
        self.lower.below(&self.upper) || self.lower.same(&self.upper)
    }

    /// Whether both bounds of the sum can be represented.
    pub fn can_add(&self, rhs: &Self) -> (r: bool)
        ensures
            T::obeys_scalar_spec() ==> r == self@.sum_req(rhs@),
    {
        self.lower.plus_fits(&rhs.lower) && self.upper.plus_fits(&rhs.upper)
    }

    /// Whether both bounds of the product can be represented.
    pub fn can_scale(&self, factor: &T) -> (r: bool)
        ensures
            T::obeys_scalar_spec() ==> r == self@.scaled_req(*factor),
    {
        self.lower.times_fits(factor) && self.upper.times_fits(factor)
    }

    /// The sum of two intervals, bound by bound.
    pub fn add(self, rhs: Self) -> (r: Self)
        requires
            T::obeys_scalar_spec() ==> self@.sum_req(rhs@),
        ensures
            T::obeys_scalar_spec() ==> r@ == self@.sum(rhs@),
    {
        Range { lower: self.lower.plus(rhs.lower), upper: self.upper.plus(rhs.upper) }
    }

    /// The product of an interval and a scalar, bound by bound.
    pub fn scale(self, factor: T) -> (r: Self)
        requires
            T::obeys_scalar_spec() ==> self@.scaled_req(factor),
        ensures
            T::obeys_scalar_spec() ==> r@ == self@.scaled(factor),
    {
        Range { lower: self.lower.times(factor), upper: self.upper.times(factor) }
    }

    /// Compares the interval with a scalar.
    pub fn compare_to_scalar(&self, scalar: &T) -> (r: Comparison)
        ensures
            T::obeys_scalar_spec() ==> r == self@.compare(*scalar),
    {
        let point_at_scalar = self.lower.same(&self.upper) && self.lower.same(scalar);
        let upper_below = self.upper.below(scalar);
        let lower_above = scalar.below(&self.lower);
        Comparison::from_tests(point_at_scalar, upper_below, lower_above)
    }

    /// Prints the interval: a single point as that number, any other interval as
    /// its bounds with a dash between them.
    pub fn to_display_string(&self) -> (s: String)
        ensures
            T::obeys_scalar_spec() ==> s@ == self@.text(),
    {
        if self.lower.same(&self.upper) {
            self.lower.to_text()
        } else {
            proof {
                reveal_strlit("-");
            }
            let mut s = self.lower.to_text();
            s.append("-");
            let upper = self.upper.to_text();
            s.append(upper.as_str());
            s
        }
    }
}

impl<T: Scalar> From<T> for Range<T> {
    /// The interval that holds the single point `value`.
    fn from(value: T) -> (r: Self)
        ensures
            r@ == Bounds::point(value),
    {
        Range { lower: value, upper: value }
    }
}

impl<T: Scalar> vstd::std_specs::convert::FromSpecImpl<T> for Range<T> {
    open spec fn obeys_from_spec() -> bool {
        true
    }

    closed spec fn from_spec(value: T) -> Self {
        Range { lower: value, upper: value }
    }
}

/// An interval is nothing but its two bounds.
pub proof fn lemma_same_bounds_same_interval<T>(a: Range<T>, b: Range<T>)
    requires
        a@ == b@,
    ensures
        a == b,
{
}

/// The unit in which an amount is measured.
#[derive(Debug)]
pub enum MeasurementUnit {
    /// A bare number.
    Unitless,
    /// A mass, in kilograms.
    Mass,
    /// A volume, in litres.
    Volume,
    /// Any other unit; its label is printed as it stands.
    Other(String),
}

impl MeasurementUnit {
    /// The label of a unit that has one, and nothing for the others.
    pub open spec fn label(self) -> Seq<char> {
        match self {
            MeasurementUnit::Other(label) => label@,
            _ => Seq::empty(),
        }
    }
}

/// The unit in which an amount is printed.
#[derive(Clone, Copy, Debug, PartialEq, Eq, Structural)]
pub enum PrintedUnit {
    /// The number alone.
    Bare,
    /// A thousand times the number, and `g`.
    Grams,
    /// The number, and `kg`.
    Kilograms,
    /// A thousand times the number, and `ml`.
    Millilitres,
    /// A hundred times the number, and `cl`.
    Centilitres,
    /// The number, and `l`.
    Litres,
    /// The number, and the label of the unit.
    Label,
}

impl PrintedUnit {
    /// Whether an amount measured in `unit` can print in this unit.
    pub open spec fn suits(self, unit: MeasurementUnit) -> bool {
        match unit {
            MeasurementUnit::Unitless => self == PrintedUnit::Bare,
            MeasurementUnit::Mass => self == PrintedUnit::Grams || self == PrintedUnit::Kilograms,
            MeasurementUnit::Volume => self == PrintedUnit::Millilitres || self
                == PrintedUnit::Centilitres || self == PrintedUnit::Litres,
            MeasurementUnit::Other(_) => self == PrintedUnit::Label,
        }
    }

    /// What is printed behind the number: the sign of this unit, or the label
    /// of `unit`.
    pub open spec fn sign(self, unit: MeasurementUnit) -> Seq<char> {
        match self {
            PrintedUnit::Bare => Seq::empty(),
            PrintedUnit::Grams => seq!['g'],
            PrintedUnit::Kilograms => seq!['k', 'g'],
            PrintedUnit::Millilitres => seq!['m', 'l'],
            PrintedUnit::Centilitres => seq!['c', 'l'],
            PrintedUnit::Litres => seq!['l'],
            PrintedUnit::Label => unit.label(),
        }
    }

    /// The unit in which an amount is printed, from its unit of measurement and
    /// from how its magnitude compares with 0.01, 0.1 and 1.
    ///
    /// A mass below 1 prints in grams, any other in kilograms. A volume below
    /// 0.01 prints in millilitres, any other below 0.1 in centilitres, the rest
    /// in litres. A magnitude that is not wholly below a number counts as not
    /// below it, whether it lies above the number or around it.
    pub open spec fn for_amount_spec(
        unit: MeasurementUnit,
        against_hundredth: Comparison,
        against_tenth: Comparison,
        against_one: Comparison,
    ) -> PrintedUnit {
        match unit {
            MeasurementUnit::Unitless => PrintedUnit::Bare,
            MeasurementUnit::Mass => {
                if against_one == Comparison::Less {
                    PrintedUnit::Grams
                } else {
                    PrintedUnit::Kilograms
                }
            },
            MeasurementUnit::Volume => {
                if against_hundredth == Comparison::Less {
                    PrintedUnit::Millilitres
                } else if against_tenth == Comparison::Less {
                    PrintedUnit::Centilitres
                } else {
                    PrintedUnit::Litres
                }
            },
            MeasurementUnit::Other(_) => PrintedUnit::Label,
        }
    }

    /// The unit in which an amount is printed, from its unit of measurement and
    /// from how its magnitude compares with 0.01, 0.1 and 1.
    pub fn for_amount(
        unit: &MeasurementUnit,
        against_hundredth: Comparison,
        against_tenth: Comparison,
        against_one: Comparison,
    ) -> (r: PrintedUnit)
        ensures
            r == Self::for_amount_spec(*unit, against_hundredth, against_tenth, against_one),
    {
        match unit {
            MeasurementUnit::Unitless => PrintedUnit::Bare,
            MeasurementUnit::Mass => {
                if against_one == Comparison::Less {
                    PrintedUnit::Grams
                } else {
                    PrintedUnit::Kilograms
                }
            },
            MeasurementUnit::Volume => {
                if against_hundredth == Comparison::Less {
                    PrintedUnit::Millilitres
                } else if against_tenth == Comparison::Less {
                    PrintedUnit::Centilitres
                } else {
                    PrintedUnit::Litres
                }
            },
            MeasurementUnit::Other(_) => PrintedUnit::Label,
        }
    }
}

/// A magnitude and the unit it is measured in.
#[derive(Debug)]
pub struct Amount<T> {
    pub value: Range<T>,
    pub unit: MeasurementUnit,
}

impl<T: Magnitude> Amount<T> {
    /// The unit in which the amount is printed.
    pub open spec fn printed_unit(self) -> PrintedUnit {
        PrintedUnit::for_amount_spec(
            self.unit,
            self.value@.compare(T::hundredth_spec()),
            self.value@.compare(T::tenth_spec()),
            self.value@.compare(T::one_spec()),
        )
    }

    /// Whether the product that printing this amount takes can be represented.
    pub open spec fn display_req(self) -> bool {
        match self.printed_unit() {
            PrintedUnit::Grams | PrintedUnit::Millilitres => self.value@.scaled_req(
                T::thousand_spec(),
            ),
            PrintedUnit::Centilitres => self.value@.scaled_req(T::hundred_spec()),
            _ => true,
        }
    }

    /// The interval that is printed: a thousand times the magnitude for grams
    /// and millilitres, a hundred times for centilitres, and the magnitude
    /// itself for the rest.
    pub open spec fn printed_value(self) -> Bounds<T> {
        match self.printed_unit() {
            PrintedUnit::Grams | PrintedUnit::Millilitres => self.value@.scaled(T::thousand_spec()),
            PrintedUnit::Centilitres => self.value@.scaled(T::hundred_spec()),
            _ => self.value@,
        }
    }

    /// The amount as it is printed: the printed interval, and behind it the
    /// sign of the printed unit, with nothing in between.
    pub open spec fn display_text(self) -> Seq<char> {
        self.printed_value().text() + self.printed_unit().sign(self.unit)
    }

    /// Works out the unit in which the amount is printed.
    fn choose_unit(&self) -> (printed: PrintedUnit)
        ensures
            T::obeys_scalar_spec() ==> printed == self.printed_unit(),
            printed.suits(self.unit),
    {
        let against_hundredth = self.value.compare_to_scalar(&T::hundredth());
        let against_tenth = self.value.compare_to_scalar(&T::tenth());
        let against_one = self.value.compare_to_scalar(&T::one());
        PrintedUnit::for_amount(&self.unit, against_hundredth, against_tenth, against_one)
    }

    /// Whether the product that printing this amount takes can be represented.
    pub fn can_display(&self) -> (r: bool)
        ensures
            T::obeys_scalar_spec() ==> r == self.display_req(),
    {
        match self.choose_unit() {
            PrintedUnit::Grams | PrintedUnit::Millilitres => self.value.can_scale(&T::thousand()),
            PrintedUnit::Centilitres => self.value.can_scale(&T::hundred()),
            _ => true,
        }
    }

    /// Prints the amount in a unit that suits its size.
    ///
    /// Whatever the scalar type, the result is a number followed by the sign of
    /// a unit that suits the unit of measurement.
    pub fn to_display_string(&self) -> (s: String)
        requires
            T::obeys_scalar_spec() ==> self.display_req(),
        ensures
            T::obeys_scalar_spec() ==> s@ == self.display_text(),
            exists|printed: PrintedUnit, number: Seq<char>|
                printed.suits(self.unit) && s@ == #[trigger] (number + printed.sign(self.unit)),
    {
        let printed = self.choose_unit();
        let shown = match printed {
            PrintedUnit::Grams | PrintedUnit::Millilitres => self.value.scale(T::thousand()),
            PrintedUnit::Centilitres => self.value.scale(T::hundred()),
            _ => self.value,
        };
        let mut s = shown.to_display_string();
        let ghost number = s@;
        proof {
            reveal_strlit("g");
            reveal_strlit("kg");
            reveal_strlit("ml");
            reveal_strlit("cl");
            reveal_strlit("l");
        }
        match printed {
            PrintedUnit::Bare => {},
            PrintedUnit::Grams => {
                s.append("g");
            },
            PrintedUnit::Kilograms => {
                s.append("kg");
            },
            PrintedUnit::Millilitres => {
                s.append("ml");
            },
            PrintedUnit::Centilitres => {
                s.append("cl");
            },
            PrintedUnit::Litres => {
                s.append("l");
            },
            PrintedUnit::Label => {
                if let MeasurementUnit::Other(label) = &self.unit {
                    s.append(label.as_str());
                }
            },
        }
        assert(s@ =~= number + printed.sign(self.unit));
        s
    }
}

/// Where the order of the scalars is a strict total order and the interval is
/// well formed, the comparison with a scalar is `Less` exactly if the upper
/// bound is below the scalar, `Greater` exactly if the lower bound is above it,
/// `Equal` exactly if both bounds are the scalar, and `Incomparable` in all
/// other cases.
pub proof fn lemma_compare_by_bounds<T: Scalar>(interval: Bounds<T>, scalar: T)
    requires
        strictly_ordered::<T>(),
        interval.well_formed(),
    ensures
        interval.compare(scalar) == Comparison::Less <==> interval.upper.below_spec(scalar),
        interval.compare(scalar) == Comparison::Greater <==> scalar.below_spec(interval.lower),
        interval.compare(scalar) == Comparison::Equal <==> interval.lower == interval.upper
            && interval.upper == scalar,
        interval.compare(scalar) == Comparison::Incomparable <==> !interval.upper.below_spec(scalar)
            && !scalar.below_spec(interval.lower) && !(interval.lower == interval.upper
            && interval.upper == scalar),
{
}

/// The interval of a single point prints as that point, without a dash.
pub proof fn lemma_point_text<T: Scalar>(value: T)
    ensures
        Bounds::point(value).text() == value.text_spec(),
{
}

/// A sum of intervals does not depend on the order of its terms.
pub proof fn lemma_sum_commutes<T: Scalar>(a: Bounds<T>, b: Bounds<T>)
    requires
        sums_regroup::<T>(),
        a.sum_req(b),
    ensures
        b.sum_req(a),
        a.sum(b) == b.sum(a),
{
}

/// A sum of intervals does not depend on the grouping of its terms.
pub proof fn lemma_sum_associates<T: Scalar>(a: Bounds<T>, b: Bounds<T>, c: Bounds<T>)
    requires
        sums_regroup::<T>(),
        a.sum_req(b),
        a.sum(b).sum_req(c),
        b.sum_req(c),
        a.sum_req(b.sum(c)),
    ensures
        a.sum(b).sum(c) == a.sum(b.sum(c)),
{
}

/// Scaling a sum of intervals is the same as adding the scaled intervals.
pub proof fn lemma_scaling_distributes<T: Scalar>(a: Bounds<T>, b: Bounds<T>, factor: T)
    requires
        products_distribute::<T>(),
        a.sum_req(b),
        a.sum(b).scaled_req(factor),
        a.scaled_req(factor),
        b.scaled_req(factor),
        a.scaled(factor).sum_req(b.scaled(factor)),
    ensures
        a.sum(b).scaled(factor) == a.scaled(factor).sum(b.scaled(factor)),
{
}

/// The interval of a single point is well formed.
pub proof fn lemma_point_well_formed<T: Scalar>(value: T)
    ensures
        Bounds::point(value).well_formed(),
{
}

/// The sum of two well-formed intervals is well formed.
pub proof fn lemma_sum_well_formed<T: Scalar>(a: Bounds<T>, b: Bounds<T>)
    requires
        arithmetic_keeps_order::<T>(),
        a.well_formed(),
        b.well_formed(),
        a.sum_req(b),
    ensures
        a.sum(b).well_formed(),
{
}

/// A well-formed interval scaled by a factor that is not negative is well
/// formed.
pub proof fn lemma_scaled_well_formed<T: Scalar>(a: Bounds<T>, factor: T)
    requires
        arithmetic_keeps_order::<T>(),
        a.well_formed(),
        at_most(T::zero_spec(), factor),
        a.scaled_req(factor),
    ensures
        a.scaled(factor).well_formed(),
{
}

} // verus!
