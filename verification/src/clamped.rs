//! The clamped value itself: construction, bound changes, value changes and
//! the position of the value within its bounds.

use crate::scalar::{saturate, truncated_quotient, Scalar};
use std::ops::{AddAssign, DivAssign, MulAssign, SubAssign};
use vstd::prelude::*;

verus! {

/// Why an operation on a clamped value was refused.
#[derive(Clone, Copy, Debug, PartialEq, Eq, Structural)]
pub enum ClampedError {
    /// The minimum would lie above the maximum.
    InvalidRange,
    /// The value would lie outside the bounds.
    ValueOutOfBounds,
    /// The divisor is zero.
    DivisionByZero,
}

/// The mathematical content of a clamped value: three integers.
pub ghost struct Interval {
    pub min: int,
    pub value: int,
    pub max: int,
}

impl Interval {
    /// The invariant of a clamped value: the value lies within the bounds.
    pub open spec fn is_valid(self) -> bool {
        self.min <= self.value <= self.max
    }

    /// The same bounds around `x`, clamped into them.
    pub open spec fn with_value(self, x: int) -> Interval {
        Interval { value: saturate(x, self.min, self.max), ..self }
    }

    /// The value raised by `delta` and clamped.
    pub open spec fn added(self, delta: int) -> Interval {
        self.with_value(self.value + delta)
    }

    /// The value lowered by `delta` and clamped.
    pub open spec fn subtracted(self, delta: int) -> Interval {
        self.with_value(self.value - delta)
    }

    /// The value multiplied by `factor` and clamped.
    pub open spec fn multiplied(self, factor: int) -> Interval {
        self.with_value(self.value * factor)
    }

    /// The value divided by `divisor`, rounded toward zero, and clamped.
    pub open spec fn divided(self, divisor: int) -> Interval
        recommends
            divisor != 0,
    {
        self.with_value(truncated_quotient(self.value, divisor))
    }

    /// How far the value lies above the minimum.
    pub open spec fn offset(self) -> int {
        self.value - self.min
    }

    /// The width of the bounds.
    pub open spec fn span(self) -> int {
        self.max - self.min
    }
}

/// What stands in the way of the bounds `min` and `max` around `value`, if
/// anything. An inverted range takes precedence over a value outside the range.
pub open spec fn range_fault(min: int, value: int, max: int) -> Option<ClampedError> {
    if min > max {
        Some(ClampedError::InvalidRange)
    } else if value < min || value > max {
        Some(ClampedError::ValueOutOfBounds)
    } else {
        None
    }
}

/// The position of a value within its bounds as an exact fraction: how far the
/// value lies above the minimum, over the width of the bounds. The denominator
/// is zero exactly when the bounds coincide; what the fraction is worth then is
/// left to the caller.
#[derive(Debug)]
pub struct Ratio<T> {
    pub numerator: T,
    pub denominator: T,
}

/// A value that is kept between a minimum and a maximum.
#[derive(Debug)]
pub struct ClampedValue<T: Scalar> {
    value: T,
    min: T,
    max: T,
}

impl<T: Scalar> View for ClampedValue<T> {
    type V = Interval;

    closed spec fn view(&self) -> Interval {
        Interval { min: self.min.to_int(), value: self.value.to_int(), max: self.max.to_int() }
    }
}

impl<T: Scalar> ClampedValue<T> {
    /// The invariant: `min <= value <= max`.
    pub open spec fn inv(&self) -> bool {
        self@.is_valid()
    }

    /// Two clamped values with the same interval are the same value: what a
    /// contract says of the interval, it says of the fields.
    pub proof fn lemma_view_is_exact(self, other: Self)
        requires
            self@ == other@,
        ensures
            self == other,
    {
        self.min.lemma_to_int_injective(other.min);
        self.value.lemma_to_int_injective(other.value);
        self.max.lemma_to_int_injective(other.max);
    }

    /// The three integers of the interval lie within the range of `T`.
    pub proof fn lemma_view_within_type(self)
        ensures
            T::lowest() <= self@.min <= T::highest(),
            T::lowest() <= self@.value <= T::highest(),
            T::lowest() <= self@.max <= T::highest(),
    {
        self.min.lemma_within_range();
        self.value.lemma_within_range();
        self.max.lemma_within_range();
    }

    /// Creates a clamped value. An inverted range (`min > max`) is refused as
    /// `InvalidRange`, a value outside `[min, max]` as `ValueOutOfBounds`.
    pub fn new(min: T, value: T, max: T) -> (r: Result<Self, ClampedError>)
        ensures
            match r {
                Ok(c) => {
                    &&& range_fault(min.to_int(), value.to_int(), max.to_int()) is None
                    &&& c@ == (Interval {
                        min: min.to_int(),
                        value: value.to_int(),
                        max: max.to_int(),
                    })
                    &&& c.inv()
                },
                Err(e) => range_fault(min.to_int(), value.to_int(), max.to_int()) == Some(e),
            },
    {
        if max.less(&min) {
            return Err(ClampedError::InvalidRange);
        } else if value.less(&min) || max.less(&value) {
            return Err(ClampedError::ValueOutOfBounds);
        }
        Ok(Self { value, min, max })
    }

    /// The current value.
    pub fn value(&self) -> (r: &T)
        ensures
            r.to_int() == self@.value,
    {
        &self.value
    }

    /// The minimum.
    pub fn min(&self) -> (r: &T)
        ensures
            r.to_int() == self@.min,
    {
        &self.min
    }

    /// The maximum.
    pub fn max(&self) -> (r: &T)
        ensures
            r.to_int() == self@.max,
    {
        &self.max
    }

    /// Sets the minimum to `new_min`. A minimum above the maximum is refused as
    /// `InvalidRange`, one above the current value as `ValueOutOfBounds`; a
    /// refused call changes nothing.
    pub fn set_min(&mut self, new_min: T) -> (r: Result<(), ClampedError>)
        requires
            old(self).inv(),
        ensures
            final(self).inv(),
            match r {
                Ok(_) => {
                    &&& range_fault(new_min.to_int(), old(self)@.value, old(self)@.max) is None
                    &&& final(self)@ == (Interval { min: new_min.to_int(), ..old(self)@ })
                },
                Err(e) => {
                    &&& range_fault(new_min.to_int(), old(self)@.value, old(self)@.max) == Some(e)
                    &&& *final(self) == *old(self)
                },
            },
    {
        if self.max.less(&new_min) {
            return Err(ClampedError::InvalidRange);
        } else if self.value.less(&new_min) {
            return Err(ClampedError::ValueOutOfBounds);
        }
        self.min = new_min;
        Ok(())
    }

    /// Sets the maximum to `new_max`. A maximum below the minimum is refused as
    /// `InvalidRange`, one below the current value as `ValueOutOfBounds`; a
    /// refused call changes nothing.
    pub fn set_max(&mut self, new_max: T) -> (r: Result<(), ClampedError>)
        requires
            old(self).inv(),
        ensures
            final(self).inv(),
            match r {
                Ok(_) => {
                    &&& range_fault(old(self)@.min, old(self)@.value, new_max.to_int()) is None
                    &&& final(self)@ == (Interval { max: new_max.to_int(), ..old(self)@ })
                },
                Err(e) => {
                    &&& range_fault(old(self)@.min, old(self)@.value, new_max.to_int()) == Some(e)
                    &&& *final(self) == *old(self)
                },
            },
    {
        if new_max.less(&self.min) {
            return Err(ClampedError::InvalidRange);
        } else if new_max.less(&self.value) {
            return Err(ClampedError::ValueOutOfBounds);
        }
        self.max = new_max;
        Ok(())
    }

    /// Sets the value to `new_value`, held at the minimum or the maximum where
    /// `new_value` lies outside the bounds.
    pub fn set(&mut self, new_value: T)
        requires
            old(self).inv(),
        ensures
            final(self).inv(),
            final(self)@ == old(self)@.with_value(new_value.to_int()),
    {
        self.value = new_value;
        self.clamp();
    }

    /// Brings the stored value back between the bounds.
    fn clamp(&mut self)
        requires
            old(self)@.min <= old(self)@.max,
        ensures
            final(self)@ == old(self)@.with_value(old(self)@.value),
    {
        if self.value.less(&self.min) {
            self.value = self.min;
        } else if self.max.less(&self.value) {
            self.value = self.max;
        }
    }

    /// Adds `delta` to the value. The sum saturates at the limits of `T` and is
    /// then clamped, which together is the exact sum clamped into the bounds.
    pub fn add(&mut self, delta: T)
        requires
            old(self).inv(),
        ensures
            final(self).inv(),
            final(self)@ == old(self)@.added(delta.to_int()),
    {
        proof {
            self.min.lemma_within_range();
            self.max.lemma_within_range();
        }
        self.value = self.value.sat_add(&delta);
        self.clamp();
    }

    /// Subtracts `delta` from the value. The difference saturates at the limits
    /// of `T` and is then clamped, which together is the exact difference
    /// clamped into the bounds.
    pub fn subtract(&mut self, delta: T)
        requires
            old(self).inv(),
        ensures
            final(self).inv(),
            final(self)@ == old(self)@.subtracted(delta.to_int()),
    {
        proof {
            self.min.lemma_within_range();
            self.max.lemma_within_range();
        }
        self.value = self.value.sat_sub(&delta);
        self.clamp();
    }

    /// Multiplies the value by `factor`. The product saturates at the limits of
    /// `T` and is then clamped, which together is the exact product clamped
    /// into the bounds.
    pub fn multiply(&mut self, factor: T)
        requires
            old(self).inv(),
        ensures
            final(self).inv(),
            final(self)@ == old(self)@.multiplied(factor.to_int()),
    {
        proof {
            self.min.lemma_within_range();
            self.max.lemma_within_range();
        }
        self.value = self.value.sat_mul(&factor);
        self.clamp();
    }

    /// Divides the value by `divisor`, rounding toward zero, and clamps the
    /// quotient. A zero divisor is refused as `DivisionByZero` and changes
    /// nothing. The one quotient that `T` cannot hold, its lowest value by
    /// minus one, is not asked for.
    pub fn divide(&mut self, divisor: T) -> (r: Result<(), ClampedError>)
        requires
            old(self).inv(),
            !(old(self)@.value == T::lowest() && divisor.to_int() == -1),
        ensures
            final(self).inv(),
            match r {
                Ok(_) => {
                    &&& divisor.to_int() != 0
                    &&& final(self)@ == old(self)@.divided(divisor.to_int())
                },
                Err(e) => {
                    &&& divisor.to_int() == 0
                    &&& e == ClampedError::DivisionByZero
                    &&& *final(self) == *old(self)
                },
            },
    {
        if divisor.is_zero() {
            return Err(ClampedError::DivisionByZero);
        }
        self.value = self.value.quotient(&divisor);
        self.clamp();
        Ok(())
    }

    /// The position of the value within the bounds, as an exact fraction:
    /// `value - min` over `max - min`. The width of the bounds has to fit `T`.
    pub fn percent(&self) -> (r: Ratio<T>)
        requires
            self.inv(),
            self@.span() <= T::highest(),
        ensures
            r.numerator.to_int() == self@.offset(),
            r.denominator.to_int() == self@.span(),
    {
        proof {
            T::lemma_zero_within_range();
            self.max.lemma_within_range();
        }
        Ratio {
            numerator: self.value.difference(&self.min),
            denominator: self.max.difference(&self.min),
        }
    }
}

impl<T: Scalar> AddAssign<T> for ClampedValue<T> {
    /// `+=` adds as [`ClampedValue::add`] does.
    fn add_assign(&mut self, rhs: T)
        requires
            old(self).inv(),
        ensures
            final(self).inv(),
            final(self)@ == old(self)@.added(rhs.to_int()),
    {
        self.add(rhs);
    }
}

impl<T: Scalar> SubAssign<T> for ClampedValue<T> {
    /// `-=` subtracts as [`ClampedValue::subtract`] does.
    fn sub_assign(&mut self, rhs: T)
        requires
            old(self).inv(),
        ensures
            final(self).inv(),
            final(self)@ == old(self)@.subtracted(rhs.to_int()),
    {
        self.subtract(rhs);
    }
}

impl<T: Scalar> MulAssign<T> for ClampedValue<T> {
    /// `*=` multiplies as [`ClampedValue::multiply`] does.
    fn mul_assign(&mut self, rhs: T)
        requires
            old(self).inv(),
        ensures
            final(self).inv(),
            final(self)@ == old(self)@.multiplied(rhs.to_int()),
    {
        self.multiply(rhs);
    }
}

impl<T: Scalar> DivAssign<T> for ClampedValue<T> {
    /// `/=` divides as [`ClampedValue::divide`] does, for a divisor that is
    /// not zero: an operator has no way to refuse one.
    fn div_assign(&mut self, rhs: T)
        requires
            old(self).inv(),
            rhs.to_int() != 0,
            !(old(self)@.value == T::lowest() && rhs.to_int() == -1),
        ensures
            final(self).inv(),
            final(self)@ == old(self)@.divided(rhs.to_int()),
    {
        self.value = self.value.quotient(&rhs);
        self.clamp();
    }
}

} // verus!
