//! The scalar types a clamped value can hold, and the arithmetic they supply.

use vstd::prelude::*;

verus! {

/// `x` forced into the closed interval `[lo, hi]`: the nearer bound where `x`
/// lies outside it, `x` itself otherwise.
pub open spec fn saturate(x: int, lo: int, hi: int) -> int {
    if x < lo {
        lo
    } else if x > hi {
        hi
    } else {
        x
    }
}

/// The quotient of `a` by `b` rounded toward zero, as machine integers divide.
pub open spec fn truncated_quotient(a: int, b: int) -> int
    recommends
        b != 0,
{
    if a >= 0 {
        a / b
    } else {
        -((-a) / b)
    }
}

/// A fixed-width integer type, modelled by the mathematical integer it stands for.
///
/// Every value lies in `[lowest(), highest()]`, and two values that stand for
/// the same integer are the same value. The trait is implemented for the
/// primitive integers, `i8` to `i128`, `u8` to `u128`, `isize` and `usize`.
pub trait Scalar: Copy + Sized {
    /// The integer this value stands for.
    spec fn to_int(self) -> int;

    /// The least integer the type can hold.
    spec fn lowest() -> int;

    /// The greatest integer the type can hold.
    spec fn highest() -> int;

    /// Every value lies within the type's range.
    proof fn lemma_within_range(self)
        ensures
            Self::lowest() <= self.to_int() <= Self::highest(),
    ;

    /// Zero lies within the type's range.
    proof fn lemma_zero_within_range()
        ensures
            Self::lowest() <= 0 <= Self::highest(),
    ;

    /// A value is determined by the integer it stands for.
    proof fn lemma_to_int_injective(self, other: Self)
        requires
            self.to_int() == other.to_int(),
        ensures
            self == other,
    ;

    /// Whether `self` is strictly below `other`.
    fn less(&self, other: &Self) -> (r: bool)
        ensures
            r == (self.to_int() < other.to_int()),
    ;

    /// Whether `self` is the zero of the type.
    fn is_zero(&self) -> (r: bool)
        ensures
            r == (self.to_int() == 0),
    ;

    /// The sum, held at the type's limits where it would leave them.
    fn sat_add(&self, rhs: &Self) -> (r: Self)
        ensures
            r.to_int() == saturate(self.to_int() + rhs.to_int(), Self::lowest(), Self::highest()),
    ;

    /// The difference, held at the type's limits where it would leave them.
    fn sat_sub(&self, rhs: &Self) -> (r: Self)
        ensures
            r.to_int() == saturate(self.to_int() - rhs.to_int(), Self::lowest(), Self::highest()),
    ;

    /// The product, held at the type's limits where it would leave them.
    fn sat_mul(&self, rhs: &Self) -> (r: Self)
        ensures
            r.to_int() == saturate(self.to_int() * rhs.to_int(), Self::lowest(), Self::highest()),
    ;

    /// The exact difference, for operands whose difference the type can hold.
    fn difference(&self, rhs: &Self) -> (r: Self)
        requires
            Self::lowest() <= self.to_int() - rhs.to_int() <= Self::highest(),
        ensures
            r.to_int() == self.to_int() - rhs.to_int(),
    ;

    /// The quotient rounded toward zero. The divisor is not zero, and the one
    /// quotient the type cannot hold (its lowest value by minus one) is left out.
    fn quotient(&self, rhs: &Self) -> (r: Self)
        requires
            rhs.to_int() != 0,
            !(self.to_int() == Self::lowest() && rhs.to_int() == -1),
        ensures
            r.to_int() == truncated_quotient(self.to_int(), rhs.to_int()),
    ;
}

} // verus!
