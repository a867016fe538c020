//! The primitive integer types as scalars.

use crate::saturating::{
    saturating_add_i8, saturating_mul_i8, saturating_sub_i8,
    saturating_add_i16, saturating_mul_i16, saturating_sub_i16,
    saturating_add_i32, saturating_mul_i32, saturating_sub_i32,
    saturating_add_i64, saturating_mul_i64, saturating_sub_i64,
    saturating_add_i128, saturating_mul_i128, saturating_sub_i128,
    saturating_add_isize, saturating_mul_isize, saturating_sub_isize,
    saturating_add_u8, saturating_mul_u8, saturating_sub_u8,
    saturating_add_u16, saturating_mul_u16, saturating_sub_u16,
    saturating_add_u32, saturating_mul_u32, saturating_sub_u32,
    saturating_add_u64, saturating_mul_u64, saturating_sub_u64,
    saturating_add_u128, saturating_mul_u128, saturating_sub_u128,
    saturating_add_usize, saturating_mul_usize, saturating_sub_usize,
};
use crate::scalar::{truncated_quotient, Scalar};
use vstd::prelude::*;

verus! {

/// The quotient of two values of a signed type, rounded toward zero, lies
/// within the type again, but for the lowest value divided by minus one.
/// `hi` is the type's greatest value, `-hi - 1` its least.
proof fn lemma_signed_quotient_fits(a: int, b: int, hi: int)
    requires
        hi >= 0,
        -hi - 1 <= a <= hi,
        b != 0,
        !(a == -hi - 1 && b == -1),
    ensures
        -hi - 1 <= truncated_quotient(a, b) <= hi,
{
    let x = if a >= 0 { a } else { -a };
    if b > 0 {
        vstd::arithmetic::div_mod::lemma_div_pos_is_pos(x, b);
        vstd::arithmetic::div_mod::lemma_div_is_ordered_by_denominator(x, 1, b);
        vstd::arithmetic::div_mod::lemma_div_basics(x);
    } else if b == -1 {
        assert(x / b == -x) by (nonlinear_arith)
            requires
                b == -1,
        ;
    } else {
        assert(-x < x / b <= 0 || x == 0 && x / b == 0) by (nonlinear_arith)
            requires
                x >= 0,
                b <= -2,
        ;
    }
}

impl Scalar for i8 {
    open spec fn to_int(self) -> int {
        self as int
    }

    open spec fn lowest() -> int {
        i8::MIN as int
    }

    open spec fn highest() -> int {
        i8::MAX as int
    }

    proof fn lemma_within_range(self) {
    }

    proof fn lemma_to_int_injective(self, other: Self) {
    }

    proof fn lemma_zero_within_range() {
    }

    fn less(&self, other: &Self) -> (r: bool) {
        *self < *other
    }

    fn is_zero(&self) -> (r: bool) {
        *self == 0
    }

    fn sat_add(&self, rhs: &Self) -> (r: Self) {
        saturating_add_i8(self, rhs)
    }

    fn sat_sub(&self, rhs: &Self) -> (r: Self) {
        saturating_sub_i8(self, rhs)
    }

    fn sat_mul(&self, rhs: &Self) -> (r: Self) {
        saturating_mul_i8(self, rhs)
    }

    fn difference(&self, rhs: &Self) -> (r: Self) {
        *self - *rhs
    }

    fn quotient(&self, rhs: &Self) -> (r: Self) {
        proof {
            lemma_signed_quotient_fits(*self as int, *rhs as int, i8::MAX as int);
        }
        *self / *rhs
    }
}

impl Scalar for i16 {
    open spec fn to_int(self) -> int {
        self as int
    }

    open spec fn lowest() -> int {
        i16::MIN as int
    }

    open spec fn highest() -> int {
        i16::MAX as int
    }

    proof fn lemma_within_range(self) {
    }

    proof fn lemma_to_int_injective(self, other: Self) {
    }

    proof fn lemma_zero_within_range() {
    }

    fn less(&self, other: &Self) -> (r: bool) {
        *self < *other
    }

    fn is_zero(&self) -> (r: bool) {
        *self == 0
    }

    fn sat_add(&self, rhs: &Self) -> (r: Self) {
        saturating_add_i16(self, rhs)
    }

    fn sat_sub(&self, rhs: &Self) -> (r: Self) {
        saturating_sub_i16(self, rhs)
    }

    fn sat_mul(&self, rhs: &Self) -> (r: Self) {
        saturating_mul_i16(self, rhs)
    }

    fn difference(&self, rhs: &Self) -> (r: Self) {
        *self - *rhs
    }

    fn quotient(&self, rhs: &Self) -> (r: Self) {
        proof {
            lemma_signed_quotient_fits(*self as int, *rhs as int, i16::MAX as int);
        }
        *self / *rhs
    }
}

impl Scalar for i32 {
    open spec fn to_int(self) -> int {
        self as int
    }

    open spec fn lowest() -> int {
        i32::MIN as int
    }

    open spec fn highest() -> int {
        i32::MAX as int
    }

    proof fn lemma_within_range(self) {
    }

    proof fn lemma_to_int_injective(self, other: Self) {
    }

    proof fn lemma_zero_within_range() {
    }

    fn less(&self, other: &Self) -> (r: bool) {
        *self < *other
    }

    fn is_zero(&self) -> (r: bool) {
        *self == 0
    }

    fn sat_add(&self, rhs: &Self) -> (r: Self) {
        saturating_add_i32(self, rhs)
    }

    fn sat_sub(&self, rhs: &Self) -> (r: Self) {
        saturating_sub_i32(self, rhs)
    }

    fn sat_mul(&self, rhs: &Self) -> (r: Self) {
        saturating_mul_i32(self, rhs)
    }

    fn difference(&self, rhs: &Self) -> (r: Self) {
        *self - *rhs
    }

    fn quotient(&self, rhs: &Self) -> (r: Self) {
        proof {
            lemma_signed_quotient_fits(*self as int, *rhs as int, i32::MAX as int);
        }
        *self / *rhs
    }
}

impl Scalar for i64 {
    open spec fn to_int(self) -> int {
        self as int
    }

    open spec fn lowest() -> int {
        i64::MIN as int
    }

    open spec fn highest() -> int {
        i64::MAX as int
    }

    proof fn lemma_within_range(self) {
    }

    proof fn lemma_to_int_injective(self, other: Self) {
    }

    proof fn lemma_zero_within_range() {
    }

    fn less(&self, other: &Self) -> (r: bool) {
        *self < *other
    }

    fn is_zero(&self) -> (r: bool) {
        *self == 0
    }

    fn sat_add(&self, rhs: &Self) -> (r: Self) {
        saturating_add_i64(self, rhs)
    }

    fn sat_sub(&self, rhs: &Self) -> (r: Self) {
        saturating_sub_i64(self, rhs)
    }

    fn sat_mul(&self, rhs: &Self) -> (r: Self) {
        saturating_mul_i64(self, rhs)
    }

    fn difference(&self, rhs: &Self) -> (r: Self) {
        *self - *rhs
    }

    fn quotient(&self, rhs: &Self) -> (r: Self) {
        proof {
            lemma_signed_quotient_fits(*self as int, *rhs as int, i64::MAX as int);
        }
        *self / *rhs
    }
}

impl Scalar for i128 {
    open spec fn to_int(self) -> int {
        self as int
    }

    open spec fn lowest() -> int {
        i128::MIN as int
    }

    open spec fn highest() -> int {
        i128::MAX as int
    }

    proof fn lemma_within_range(self) {
    }

    proof fn lemma_to_int_injective(self, other: Self) {
    }

    proof fn lemma_zero_within_range() {
    }

    fn less(&self, other: &Self) -> (r: bool) {
        *self < *other
    }

    fn is_zero(&self) -> (r: bool) {
        *self == 0
    }

    fn sat_add(&self, rhs: &Self) -> (r: Self) {
        saturating_add_i128(self, rhs)
    }

    fn sat_sub(&self, rhs: &Self) -> (r: Self) {
        saturating_sub_i128(self, rhs)
    }

    fn sat_mul(&self, rhs: &Self) -> (r: Self) {
        saturating_mul_i128(self, rhs)
    }

    fn difference(&self, rhs: &Self) -> (r: Self) {
        *self - *rhs
    }

    fn quotient(&self, rhs: &Self) -> (r: Self) {
        proof {
            lemma_signed_quotient_fits(*self as int, *rhs as int, i128::MAX as int);
        }
        *self / *rhs
    }
}

impl Scalar for isize {
    open spec fn to_int(self) -> int {
        self as int
    }

    open spec fn lowest() -> int {
        isize::MIN as int
    }

    open spec fn highest() -> int {
        isize::MAX as int
    }

    proof fn lemma_within_range(self) {
    }

    proof fn lemma_to_int_injective(self, other: Self) {
    }

    proof fn lemma_zero_within_range() {
    }

    fn less(&self, other: &Self) -> (r: bool) {
        *self < *other
    }

    fn is_zero(&self) -> (r: bool) {
        *self == 0
    }

    fn sat_add(&self, rhs: &Self) -> (r: Self) {
        saturating_add_isize(self, rhs)
    }

    fn sat_sub(&self, rhs: &Self) -> (r: Self) {
        saturating_sub_isize(self, rhs)
    }

    fn sat_mul(&self, rhs: &Self) -> (r: Self) {
        saturating_mul_isize(self, rhs)
    }

    fn difference(&self, rhs: &Self) -> (r: Self) {
        *self - *rhs
    }

    fn quotient(&self, rhs: &Self) -> (r: Self) {
        proof {
            lemma_signed_quotient_fits(*self as int, *rhs as int, isize::MAX as int);
        }
        *self / *rhs
    }
}

impl Scalar for u8 {
    open spec fn to_int(self) -> int {
        self as int
    }

    open spec fn lowest() -> int {
        u8::MIN as int
    }

    open spec fn highest() -> int {
        u8::MAX as int
    }

    proof fn lemma_within_range(self) {
    }

    proof fn lemma_to_int_injective(self, other: Self) {
    }

    proof fn lemma_zero_within_range() {
    }

    fn less(&self, other: &Self) -> (r: bool) {
        *self < *other
    }

    fn is_zero(&self) -> (r: bool) {
        *self == 0
    }

    fn sat_add(&self, rhs: &Self) -> (r: Self) {
        saturating_add_u8(self, rhs)
    }

    fn sat_sub(&self, rhs: &Self) -> (r: Self) {
        saturating_sub_u8(self, rhs)
    }

    fn sat_mul(&self, rhs: &Self) -> (r: Self) {
        saturating_mul_u8(self, rhs)
    }

    fn difference(&self, rhs: &Self) -> (r: Self) {
        *self - *rhs
    }

    fn quotient(&self, rhs: &Self) -> (r: Self) {
        *self / *rhs
    }
}

impl Scalar for u16 {
    open spec fn to_int(self) -> int {
        self as int
    }

    open spec fn lowest() -> int {
        u16::MIN as int
    }

    open spec fn highest() -> int {
        u16::MAX as int
    }

    proof fn lemma_within_range(self) {
    }

    proof fn lemma_to_int_injective(self, other: Self) {
    }

    proof fn lemma_zero_within_range() {
    }

    fn less(&self, other: &Self) -> (r: bool) {
        *self < *other
    }

    fn is_zero(&self) -> (r: bool) {
        *self == 0
    }

    fn sat_add(&self, rhs: &Self) -> (r: Self) {
        saturating_add_u16(self, rhs)
    }

    fn sat_sub(&self, rhs: &Self) -> (r: Self) {
        saturating_sub_u16(self, rhs)
    }

    fn sat_mul(&self, rhs: &Self) -> (r: Self) {
        saturating_mul_u16(self, rhs)
    }

    fn difference(&self, rhs: &Self) -> (r: Self) {
        *self - *rhs
    }

    fn quotient(&self, rhs: &Self) -> (r: Self) {
        *self / *rhs
    }
}

impl Scalar for u32 {
    open spec fn to_int(self) -> int {
        self as int
    }

    open spec fn lowest() -> int {
        u32::MIN as int
    }

    open spec fn highest() -> int {
        u32::MAX as int
    }

    proof fn lemma_within_range(self) {
    }

    proof fn lemma_to_int_injective(self, other: Self) {
    }

    proof fn lemma_zero_within_range() {
    }

    fn less(&self, other: &Self) -> (r: bool) {
        *self < *other
    }

    fn is_zero(&self) -> (r: bool) {
        *self == 0
    }

    fn sat_add(&self, rhs: &Self) -> (r: Self) {
        saturating_add_u32(self, rhs)
    }

    fn sat_sub(&self, rhs: &Self) -> (r: Self) {
        saturating_sub_u32(self, rhs)
    }

    fn sat_mul(&self, rhs: &Self) -> (r: Self) {
        saturating_mul_u32(self, rhs)
    }

    fn difference(&self, rhs: &Self) -> (r: Self) {
        *self - *rhs
    }

    fn quotient(&self, rhs: &Self) -> (r: Self) {
        *self / *rhs
    }
}

impl Scalar for u64 {
    open spec fn to_int(self) -> int {
        self as int
    }

    open spec fn lowest() -> int {
        u64::MIN as int
    }

    open spec fn highest() -> int {
        u64::MAX as int
    }

    proof fn lemma_within_range(self) {
    }

    proof fn lemma_to_int_injective(self, other: Self) {
    }

    proof fn lemma_zero_within_range() {
    }

    fn less(&self, other: &Self) -> (r: bool) {
        *self < *other
    }

    fn is_zero(&self) -> (r: bool) {
        *self == 0
    }

    fn sat_add(&self, rhs: &Self) -> (r: Self) {
        saturating_add_u64(self, rhs)
    }

    fn sat_sub(&self, rhs: &Self) -> (r: Self) {
        saturating_sub_u64(self, rhs)
    }

    fn sat_mul(&self, rhs: &Self) -> (r: Self) {
        saturating_mul_u64(self, rhs)
    }

    fn difference(&self, rhs: &Self) -> (r: Self) {
        *self - *rhs
    }

    fn quotient(&self, rhs: &Self) -> (r: Self) {
        *self / *rhs
    }
}

impl Scalar for u128 {
    open spec fn to_int(self) -> int {
        self as int
    }

    open spec fn lowest() -> int {
        u128::MIN as int
    }

    open spec fn highest() -> int {
        u128::MAX as int
    }

    proof fn lemma_within_range(self) {
    }

    proof fn lemma_to_int_injective(self, other: Self) {
    }

    proof fn lemma_zero_within_range() {
    }

    fn less(&self, other: &Self) -> (r: bool) {
        *self < *other
    }

    fn is_zero(&self) -> (r: bool) {
        *self == 0
    }

    fn sat_add(&self, rhs: &Self) -> (r: Self) {
        saturating_add_u128(self, rhs)
    }

    fn sat_sub(&self, rhs: &Self) -> (r: Self) {
        saturating_sub_u128(self, rhs)
    }

    fn sat_mul(&self, rhs: &Self) -> (r: Self) {
        saturating_mul_u128(self, rhs)
    }

    fn difference(&self, rhs: &Self) -> (r: Self) {
        *self - *rhs
    }

    fn quotient(&self, rhs: &Self) -> (r: Self) {
        *self / *rhs
    }
}

impl Scalar for usize {
    open spec fn to_int(self) -> int {
        self as int
    }

    open spec fn lowest() -> int {
        usize::MIN as int
    }

    open spec fn highest() -> int {
        usize::MAX as int
    }

    proof fn lemma_within_range(self) {
    }

    proof fn lemma_to_int_injective(self, other: Self) {
    }

    proof fn lemma_zero_within_range() {
    }

    fn less(&self, other: &Self) -> (r: bool) {
        *self < *other
    }

    fn is_zero(&self) -> (r: bool) {
        *self == 0
    }

    fn sat_add(&self, rhs: &Self) -> (r: Self) {
        saturating_add_usize(self, rhs)
    }

    fn sat_sub(&self, rhs: &Self) -> (r: Self) {
        saturating_sub_usize(self, rhs)
    }

    fn sat_mul(&self, rhs: &Self) -> (r: Self) {
        saturating_mul_usize(self, rhs)
    }

    fn difference(&self, rhs: &Self) -> (r: Self) {
        *self - *rhs
    }

    fn quotient(&self, rhs: &Self) -> (r: Self) {
        *self / *rhs
    }
}

} // verus!
