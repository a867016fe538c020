//! Saturating arithmetic on the primitive integers, taken from `num_traits`.
//!
//! Each function here hands its operands to one method of `num_traits` and is
//! not verified: its contract records what that method is documented to return,
//! the exact result held at the limits of the type.

use crate::scalar::saturate;
use vstd::prelude::*;

verus! {

/// `num_traits::SaturatingAdd::saturating_add` on `i8`: the sum of the
/// operands where `i8` can hold it, else the limit of `i8` that it passed.
#[verifier::external_body]
pub(crate) fn saturating_add_i8(a: &i8, b: &i8) -> (r: i8)
    ensures
        r as int == saturate(*a + *b, i8::MIN as int, i8::MAX as int),
{
    num_traits::SaturatingAdd::saturating_add(a, b)
}

/// `num_traits::SaturatingSub::saturating_sub` on `i8`: the difference of the
/// operands where `i8` can hold it, else the limit of `i8` that it passed.
#[verifier::external_body]
pub(crate) fn saturating_sub_i8(a: &i8, b: &i8) -> (r: i8)
    ensures
        r as int == saturate(*a - *b, i8::MIN as int, i8::MAX as int),
{
    num_traits::SaturatingSub::saturating_sub(a, b)
}

/// `num_traits::SaturatingMul::saturating_mul` on `i8`: the product of the
/// operands where `i8` can hold it, else the limit of `i8` that it passed.
#[verifier::external_body]
pub(crate) fn saturating_mul_i8(a: &i8, b: &i8) -> (r: i8)
    ensures
        r as int == saturate(*a * *b, i8::MIN as int, i8::MAX as int),
{
    num_traits::SaturatingMul::saturating_mul(a, b)
}

/// `num_traits::SaturatingAdd::saturating_add` on `i16`: the sum of the
/// operands where `i16` can hold it, else the limit of `i16` that it passed.
#[verifier::external_body]
pub(crate) fn saturating_add_i16(a: &i16, b: &i16) -> (r: i16)
    ensures
        r as int == saturate(*a + *b, i16::MIN as int, i16::MAX as int),
{
    num_traits::SaturatingAdd::saturating_add(a, b)
}

/// `num_traits::SaturatingSub::saturating_sub` on `i16`: the difference of the
/// operands where `i16` can hold it, else the limit of `i16` that it passed.
#[verifier::external_body]
pub(crate) fn saturating_sub_i16(a: &i16, b: &i16) -> (r: i16)
    ensures
        r as int == saturate(*a - *b, i16::MIN as int, i16::MAX as int),
{
    num_traits::SaturatingSub::saturating_sub(a, b)
}

/// `num_traits::SaturatingMul::saturating_mul` on `i16`: the product of the
/// operands where `i16` can hold it, else the limit of `i16` that it passed.
#[verifier::external_body]
pub(crate) fn saturating_mul_i16(a: &i16, b: &i16) -> (r: i16)
    ensures
        r as int == saturate(*a * *b, i16::MIN as int, i16::MAX as int),
{
    num_traits::SaturatingMul::saturating_mul(a, b)
}

/// `num_traits::SaturatingAdd::saturating_add` on `i32`: the sum of the
/// operands where `i32` can hold it, else the limit of `i32` that it passed.
#[verifier::external_body]
pub(crate) fn saturating_add_i32(a: &i32, b: &i32) -> (r: i32)
    ensures
        r as int == saturate(*a + *b, i32::MIN as int, i32::MAX as int),
{
    num_traits::SaturatingAdd::saturating_add(a, b)
}

/// `num_traits::SaturatingSub::saturating_sub` on `i32`: the difference of the
/// operands where `i32` can hold it, else the limit of `i32` that it passed.
#[verifier::external_body]
pub(crate) fn saturating_sub_i32(a: &i32, b: &i32) -> (r: i32)
    ensures
        r as int == saturate(*a - *b, i32::MIN as int, i32::MAX as int),
{
    num_traits::SaturatingSub::saturating_sub(a, b)
}

/// `num_traits::SaturatingMul::saturating_mul` on `i32`: the product of the
/// operands where `i32` can hold it, else the limit of `i32` that it passed.
#[verifier::external_body]
pub(crate) fn saturating_mul_i32(a: &i32, b: &i32) -> (r: i32)
    ensures
        r as int == saturate(*a * *b, i32::MIN as int, i32::MAX as int),
{
    num_traits::SaturatingMul::saturating_mul(a, b)
}

/// `num_traits::SaturatingAdd::saturating_add` on `i64`: the sum of the
/// operands where `i64` can hold it, else the limit of `i64` that it passed.
#[verifier::external_body]
pub(crate) fn saturating_add_i64(a: &i64, b: &i64) -> (r: i64)
    ensures
        r as int == saturate(*a + *b, i64::MIN as int, i64::MAX as int),
{
    num_traits::SaturatingAdd::saturating_add(a, b)
}

/// `num_traits::SaturatingSub::saturating_sub` on `i64`: the difference of the
/// operands where `i64` can hold it, else the limit of `i64` that it passed.
#[verifier::external_body]
pub(crate) fn saturating_sub_i64(a: &i64, b: &i64) -> (r: i64)
    ensures
        r as int == saturate(*a - *b, i64::MIN as int, i64::MAX as int),
{
    num_traits::SaturatingSub::saturating_sub(a, b)
}

/// `num_traits::SaturatingMul::saturating_mul` on `i64`: the product of the
/// operands where `i64` can hold it, else the limit of `i64` that it passed.
#[verifier::external_body]
pub(crate) fn saturating_mul_i64(a: &i64, b: &i64) -> (r: i64)
    ensures
        r as int == saturate(*a * *b, i64::MIN as int, i64::MAX as int),
{
    num_traits::SaturatingMul::saturating_mul(a, b)
}

/// `num_traits::SaturatingAdd::saturating_add` on `i128`: the sum of the
/// operands where `i128` can hold it, else the limit of `i128` that it passed.
#[verifier::external_body]
pub(crate) fn saturating_add_i128(a: &i128, b: &i128) -> (r: i128)
    ensures
        r as int == saturate(*a + *b, i128::MIN as int, i128::MAX as int),
{
    num_traits::SaturatingAdd::saturating_add(a, b)
}

/// `num_traits::SaturatingSub::saturating_sub` on `i128`: the difference of the
/// operands where `i128` can hold it, else the limit of `i128` that it passed.
#[verifier::external_body]
pub(crate) fn saturating_sub_i128(a: &i128, b: &i128) -> (r: i128)
    ensures
        r as int == saturate(*a - *b, i128::MIN as int, i128::MAX as int),
{
    num_traits::SaturatingSub::saturating_sub(a, b)
}

/// `num_traits::SaturatingMul::saturating_mul` on `i128`: the product of the
/// operands where `i128` can hold it, else the limit of `i128` that it passed.
#[verifier::external_body]
pub(crate) fn saturating_mul_i128(a: &i128, b: &i128) -> (r: i128)
    ensures
        r as int == saturate(*a * *b, i128::MIN as int, i128::MAX as int),
{
    num_traits::SaturatingMul::saturating_mul(a, b)
}

/// `num_traits::SaturatingAdd::saturating_add` on `isize`: the sum of the
/// operands where `isize` can hold it, else the limit of `isize` that it passed.
#[verifier::external_body]
pub(crate) fn saturating_add_isize(a: &isize, b: &isize) -> (r: isize)
    ensures
        r as int == saturate(*a + *b, isize::MIN as int, isize::MAX as int),
{
    num_traits::SaturatingAdd::saturating_add(a, b)
}

/// `num_traits::SaturatingSub::saturating_sub` on `isize`: the difference of the
/// operands where `isize` can hold it, else the limit of `isize` that it passed.
#[verifier::external_body]
pub(crate) fn saturating_sub_isize(a: &isize, b: &isize) -> (r: isize)
    ensures
        r as int == saturate(*a - *b, isize::MIN as int, isize::MAX as int),
{
    num_traits::SaturatingSub::saturating_sub(a, b)
}

/// `num_traits::SaturatingMul::saturating_mul` on `isize`: the product of the
/// operands where `isize` can hold it, else the limit of `isize` that it passed.
#[verifier::external_body]
pub(crate) fn saturating_mul_isize(a: &isize, b: &isize) -> (r: isize)
    ensures
        r as int == saturate(*a * *b, isize::MIN as int, isize::MAX as int),
{
    num_traits::SaturatingMul::saturating_mul(a, b)
}

/// `num_traits::SaturatingAdd::saturating_add` on `u8`: the sum of the
/// operands where `u8` can hold it, else the limit of `u8` that it passed.
#[verifier::external_body]
pub(crate) fn saturating_add_u8(a: &u8, b: &u8) -> (r: u8)
    ensures
        r as int == saturate(*a + *b, u8::MIN as int, u8::MAX as int),
{
    num_traits::SaturatingAdd::saturating_add(a, b)
}

/// `num_traits::SaturatingSub::saturating_sub` on `u8`: the difference of the
/// operands where `u8` can hold it, else the limit of `u8` that it passed.
#[verifier::external_body]
pub(crate) fn saturating_sub_u8(a: &u8, b: &u8) -> (r: u8)
    ensures
        r as int == saturate(*a - *b, u8::MIN as int, u8::MAX as int),
{
    num_traits::SaturatingSub::saturating_sub(a, b)
}

/// `num_traits::SaturatingMul::saturating_mul` on `u8`: the product of the
/// operands where `u8` can hold it, else the limit of `u8` that it passed.
#[verifier::external_body]
pub(crate) fn saturating_mul_u8(a: &u8, b: &u8) -> (r: u8)
    ensures
        r as int == saturate(*a * *b, u8::MIN as int, u8::MAX as int),
{
    num_traits::SaturatingMul::saturating_mul(a, b)
}

/// `num_traits::SaturatingAdd::saturating_add` on `u16`: the sum of the
/// operands where `u16` can hold it, else the limit of `u16` that it passed.
#[verifier::external_body]
pub(crate) fn saturating_add_u16(a: &u16, b: &u16) -> (r: u16)
    ensures
        r as int == saturate(*a + *b, u16::MIN as int, u16::MAX as int),
{
    num_traits::SaturatingAdd::saturating_add(a, b)
}

/// `num_traits::SaturatingSub::saturating_sub` on `u16`: the difference of the
/// operands where `u16` can hold it, else the limit of `u16` that it passed.
#[verifier::external_body]
pub(crate) fn saturating_sub_u16(a: &u16, b: &u16) -> (r: u16)
    ensures
        r as int == saturate(*a - *b, u16::MIN as int, u16::MAX as int),
{
    num_traits::SaturatingSub::saturating_sub(a, b)
}

/// `num_traits::SaturatingMul::saturating_mul` on `u16`: the product of the
/// operands where `u16` can hold it, else the limit of `u16` that it passed.
#[verifier::external_body]
pub(crate) fn saturating_mul_u16(a: &u16, b: &u16) -> (r: u16)
    ensures
        r as int == saturate(*a * *b, u16::MIN as int, u16::MAX as int),
{
    num_traits::SaturatingMul::saturating_mul(a, b)
}

/// `num_traits::SaturatingAdd::saturating_add` on `u32`: the sum of the
/// operands where `u32` can hold it, else the limit of `u32` that it passed.
#[verifier::external_body]
pub(crate) fn saturating_add_u32(a: &u32, b: &u32) -> (r: u32)
    ensures
        r as int == saturate(*a + *b, u32::MIN as int, u32::MAX as int),
{
    num_traits::SaturatingAdd::saturating_add(a, b)
}

/// `num_traits::SaturatingSub::saturating_sub` on `u32`: the difference of the
/// operands where `u32` can hold it, else the limit of `u32` that it passed.
#[verifier::external_body]
pub(crate) fn saturating_sub_u32(a: &u32, b: &u32) -> (r: u32)
    ensures
        r as int == saturate(*a - *b, u32::MIN as int, u32::MAX as int),
{
    num_traits::SaturatingSub::saturating_sub(a, b)
}

/// `num_traits::SaturatingMul::saturating_mul` on `u32`: the product of the
/// operands where `u32` can hold it, else the limit of `u32` that it passed.
#[verifier::external_body]
pub(crate) fn saturating_mul_u32(a: &u32, b: &u32) -> (r: u32)
    ensures
        r as int == saturate(*a * *b, u32::MIN as int, u32::MAX as int),
{
    num_traits::SaturatingMul::saturating_mul(a, b)
}

/// `num_traits::SaturatingAdd::saturating_add` on `u64`: the sum of the
/// operands where `u64` can hold it, else the limit of `u64` that it passed.
#[verifier::external_body]
pub(crate) fn saturating_add_u64(a: &u64, b: &u64) -> (r: u64)
    ensures
        r as int == saturate(*a + *b, u64::MIN as int, u64::MAX as int),
{
    num_traits::SaturatingAdd::saturating_add(a, b)
}

/// `num_traits::SaturatingSub::saturating_sub` on `u64`: the difference of the
/// operands where `u64` can hold it, else the limit of `u64` that it passed.
#[verifier::external_body]
pub(crate) fn saturating_sub_u64(a: &u64, b: &u64) -> (r: u64)
    ensures
        r as int == saturate(*a - *b, u64::MIN as int, u64::MAX as int),
{
    num_traits::SaturatingSub::saturating_sub(a, b)
}

/// `num_traits::SaturatingMul::saturating_mul` on `u64`: the product of the
/// operands where `u64` can hold it, else the limit of `u64` that it passed.
#[verifier::external_body]
pub(crate) fn saturating_mul_u64(a: &u64, b: &u64) -> (r: u64)
    ensures
        r as int == saturate(*a * *b, u64::MIN as int, u64::MAX as int),
{
    num_traits::SaturatingMul::saturating_mul(a, b)
}

/// `num_traits::SaturatingAdd::saturating_add` on `u128`: the sum of the
/// operands where `u128` can hold it, else the limit of `u128` that it passed.
#[verifier::external_body]
pub(crate) fn saturating_add_u128(a: &u128, b: &u128) -> (r: u128)
    ensures
        r as int == saturate(*a + *b, u128::MIN as int, u128::MAX as int),
{
    num_traits::SaturatingAdd::saturating_add(a, b)
}

/// `num_traits::SaturatingSub::saturating_sub` on `u128`: the difference of the
/// operands where `u128` can hold it, else the limit of `u128` that it passed.
#[verifier::external_body]
pub(crate) fn saturating_sub_u128(a: &u128, b: &u128) -> (r: u128)
    ensures
        r as int == saturate(*a - *b, u128::MIN as int, u128::MAX as int),
{
    num_traits::SaturatingSub::saturating_sub(a, b)
}

/// `num_traits::SaturatingMul::saturating_mul` on `u128`: the product of the
/// operands where `u128` can hold it, else the limit of `u128` that it passed.
#[verifier::external_body]
pub(crate) fn saturating_mul_u128(a: &u128, b: &u128) -> (r: u128)
    ensures
        r as int == saturate(*a * *b, u128::MIN as int, u128::MAX as int),
{
    num_traits::SaturatingMul::saturating_mul(a, b)
}

/// `num_traits::SaturatingAdd::saturating_add` on `usize`: the sum of the
/// operands where `usize` can hold it, else the limit of `usize` that it passed.
#[verifier::external_body]
pub(crate) fn saturating_add_usize(a: &usize, b: &usize) -> (r: usize)
    ensures
        r as int == saturate(*a + *b, usize::MIN as int, usize::MAX as int),
{
    num_traits::SaturatingAdd::saturating_add(a, b)
}

/// `num_traits::SaturatingSub::saturating_sub` on `usize`: the difference of the
/// operands where `usize` can hold it, else the limit of `usize` that it passed.
#[verifier::external_body]
pub(crate) fn saturating_sub_usize(a: &usize, b: &usize) -> (r: usize)
    ensures
        r as int == saturate(*a - *b, usize::MIN as int, usize::MAX as int),
{
    num_traits::SaturatingSub::saturating_sub(a, b)
}

/// `num_traits::SaturatingMul::saturating_mul` on `usize`: the product of the
/// operands where `usize` can hold it, else the limit of `usize` that it passed.
#[verifier::external_body]
pub(crate) fn saturating_mul_usize(a: &usize, b: &usize) -> (r: usize)
    ensures
        r as int == saturate(*a * *b, usize::MIN as int, usize::MAX as int),
{
    num_traits::SaturatingMul::saturating_mul(a, b)
}

} // verus!
