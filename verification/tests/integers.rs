use clamped_values::ClampedValue;

#[test]
fn add_on_i8() {
    let mut c = ClampedValue::<i8>::new(0, 1, 100).unwrap();
    c.add(2);
    assert_eq!(*c.value(), 3);
    let mut c = ClampedValue::<i8>::new(i8::MIN, i8::MAX - 1, i8::MAX).unwrap();
    c.add(5);
    assert_eq!(*c.value(), i8::MAX);
}

#[test]
fn subtract_on_i8() {
    let mut c = ClampedValue::<i8>::new(0, 50, 100).unwrap();
    c.subtract(20);
    assert_eq!(*c.value(), 30);
    let mut c = ClampedValue::<i8>::new(i8::MIN, i8::MIN + 1, i8::MAX).unwrap();
    c.subtract(5);
    assert_eq!(*c.value(), i8::MIN);
}

#[test]
fn multiply_on_i8() {
    let mut c = ClampedValue::<i8>::new(0, 3, 100).unwrap();
    c.multiply(4);
    assert_eq!(*c.value(), 12);
    let mut c = ClampedValue::<i8>::new(i8::MIN, i8::MAX / 2 + 1, i8::MAX).unwrap();
    c.multiply(2);
    assert_eq!(*c.value(), i8::MAX);
}

#[test]
fn add_on_i16() {
    let mut c = ClampedValue::<i16>::new(0, 1, 100).unwrap();
    c.add(2);
    assert_eq!(*c.value(), 3);
    let mut c = ClampedValue::<i16>::new(i16::MIN, i16::MAX - 1, i16::MAX).unwrap();
    c.add(5);
    assert_eq!(*c.value(), i16::MAX);
}

#[test]
fn subtract_on_i16() {
    let mut c = ClampedValue::<i16>::new(0, 50, 100).unwrap();
    c.subtract(20);
    assert_eq!(*c.value(), 30);
    let mut c = ClampedValue::<i16>::new(i16::MIN, i16::MIN + 1, i16::MAX).unwrap();
    c.subtract(5);
    assert_eq!(*c.value(), i16::MIN);
}

#[test]
fn multiply_on_i16() {
    let mut c = ClampedValue::<i16>::new(0, 3, 100).unwrap();
    c.multiply(4);
    assert_eq!(*c.value(), 12);
    let mut c = ClampedValue::<i16>::new(i16::MIN, i16::MAX / 2 + 1, i16::MAX).unwrap();
    c.multiply(2);
    assert_eq!(*c.value(), i16::MAX);
}

#[test]
fn add_on_i32() {
    let mut c = ClampedValue::<i32>::new(0, 1, 100).unwrap();
    c.add(2);
    assert_eq!(*c.value(), 3);
    let mut c = ClampedValue::<i32>::new(i32::MIN, i32::MAX - 1, i32::MAX).unwrap();
    c.add(5);
    assert_eq!(*c.value(), i32::MAX);
}

#[test]
fn subtract_on_i32() {
    let mut c = ClampedValue::<i32>::new(0, 50, 100).unwrap();
    c.subtract(20);
    assert_eq!(*c.value(), 30);
    let mut c = ClampedValue::<i32>::new(i32::MIN, i32::MIN + 1, i32::MAX).unwrap();
    c.subtract(5);
    assert_eq!(*c.value(), i32::MIN);
}

#[test]
fn multiply_on_i32() {
    let mut c = ClampedValue::<i32>::new(0, 3, 100).unwrap();
    c.multiply(4);
    assert_eq!(*c.value(), 12);
    let mut c = ClampedValue::<i32>::new(i32::MIN, i32::MAX / 2 + 1, i32::MAX).unwrap();
    c.multiply(2);
    assert_eq!(*c.value(), i32::MAX);
}

#[test]
fn add_on_i64() {
    let mut c = ClampedValue::<i64>::new(0, 1, 100).unwrap();
    c.add(2);
    assert_eq!(*c.value(), 3);
    let mut c = ClampedValue::<i64>::new(i64::MIN, i64::MAX - 1, i64::MAX).unwrap();
    c.add(5);
    assert_eq!(*c.value(), i64::MAX);
}

#[test]
fn subtract_on_i64() {
    let mut c = ClampedValue::<i64>::new(0, 50, 100).unwrap();
    c.subtract(20);
    assert_eq!(*c.value(), 30);
    let mut c = ClampedValue::<i64>::new(i64::MIN, i64::MIN + 1, i64::MAX).unwrap();
    c.subtract(5);
    assert_eq!(*c.value(), i64::MIN);
}

#[test]
fn multiply_on_i64() {
    let mut c = ClampedValue::<i64>::new(0, 3, 100).unwrap();
    c.multiply(4);
    assert_eq!(*c.value(), 12);
    let mut c = ClampedValue::<i64>::new(i64::MIN, i64::MAX / 2 + 1, i64::MAX).unwrap();
    c.multiply(2);
    assert_eq!(*c.value(), i64::MAX);
}

#[test]
fn add_on_i128() {
    let mut c = ClampedValue::<i128>::new(0, 1, 100).unwrap();
    c.add(2);
    assert_eq!(*c.value(), 3);
    let mut c = ClampedValue::<i128>::new(i128::MIN, i128::MAX - 1, i128::MAX).unwrap();
    c.add(5);
    assert_eq!(*c.value(), i128::MAX);
}

#[test]
fn subtract_on_i128() {
    let mut c = ClampedValue::<i128>::new(0, 50, 100).unwrap();
    c.subtract(20);
    assert_eq!(*c.value(), 30);
    let mut c = ClampedValue::<i128>::new(i128::MIN, i128::MIN + 1, i128::MAX).unwrap();
    c.subtract(5);
    assert_eq!(*c.value(), i128::MIN);
}

#[test]
fn multiply_on_i128() {
    let mut c = ClampedValue::<i128>::new(0, 3, 100).unwrap();
    c.multiply(4);
    assert_eq!(*c.value(), 12);
    let mut c = ClampedValue::<i128>::new(i128::MIN, i128::MAX / 2 + 1, i128::MAX).unwrap();
    c.multiply(2);
    assert_eq!(*c.value(), i128::MAX);
}

#[test]
fn add_on_isize() {
    let mut c = ClampedValue::<isize>::new(0, 1, 100).unwrap();
    c.add(2);
    assert_eq!(*c.value(), 3);
    let mut c = ClampedValue::<isize>::new(isize::MIN, isize::MAX - 1, isize::MAX).unwrap();
    c.add(5);
    assert_eq!(*c.value(), isize::MAX);
}

#[test]
fn subtract_on_isize() {
    let mut c = ClampedValue::<isize>::new(0, 50, 100).unwrap();
    c.subtract(20);
    assert_eq!(*c.value(), 30);
    let mut c = ClampedValue::<isize>::new(isize::MIN, isize::MIN + 1, isize::MAX).unwrap();
    c.subtract(5);
    assert_eq!(*c.value(), isize::MIN);
}

#[test]
fn multiply_on_isize() {
    let mut c = ClampedValue::<isize>::new(0, 3, 100).unwrap();
    c.multiply(4);
    assert_eq!(*c.value(), 12);
    let mut c = ClampedValue::<isize>::new(isize::MIN, isize::MAX / 2 + 1, isize::MAX).unwrap();
    c.multiply(2);
    assert_eq!(*c.value(), isize::MAX);
}

#[test]
fn add_on_u8() {
    let mut c = ClampedValue::<u8>::new(0, 1, 100).unwrap();
    c.add(2);
    assert_eq!(*c.value(), 3);
    let mut c = ClampedValue::<u8>::new(u8::MIN, u8::MAX - 1, u8::MAX).unwrap();
    c.add(5);
    assert_eq!(*c.value(), u8::MAX);
}

#[test]
fn subtract_on_u8() {
    let mut c = ClampedValue::<u8>::new(0, 50, 100).unwrap();
    c.subtract(20);
    assert_eq!(*c.value(), 30);
    let mut c = ClampedValue::<u8>::new(u8::MIN, u8::MIN + 1, u8::MAX).unwrap();
    c.subtract(5);
    assert_eq!(*c.value(), u8::MIN);
}

#[test]
fn multiply_on_u8() {
    let mut c = ClampedValue::<u8>::new(0, 3, 100).unwrap();
    c.multiply(4);
    assert_eq!(*c.value(), 12);
    let mut c = ClampedValue::<u8>::new(u8::MIN, u8::MAX / 2 + 1, u8::MAX).unwrap();
    c.multiply(2);
    assert_eq!(*c.value(), u8::MAX);
}

#[test]
fn add_on_u16() {
    let mut c = ClampedValue::<u16>::new(0, 1, 100).unwrap();
    c.add(2);
    assert_eq!(*c.value(), 3);
    let mut c = ClampedValue::<u16>::new(u16::MIN, u16::MAX - 1, u16::MAX).unwrap();
    c.add(5);
    assert_eq!(*c.value(), u16::MAX);
}

#[test]
fn subtract_on_u16() {
    let mut c = ClampedValue::<u16>::new(0, 50, 100).unwrap();
    c.subtract(20);
    assert_eq!(*c.value(), 30);
    let mut c = ClampedValue::<u16>::new(u16::MIN, u16::MIN + 1, u16::MAX).unwrap();
    c.subtract(5);
    assert_eq!(*c.value(), u16::MIN);
}

#[test]
fn multiply_on_u16() {
    let mut c = ClampedValue::<u16>::new(0, 3, 100).unwrap();
    c.multiply(4);
    assert_eq!(*c.value(), 12);
    let mut c = ClampedValue::<u16>::new(u16::MIN, u16::MAX / 2 + 1, u16::MAX).unwrap();
    c.multiply(2);
    assert_eq!(*c.value(), u16::MAX);
}

#[test]
fn add_on_u32() {
    let mut c = ClampedValue::<u32>::new(0, 1, 100).unwrap();
    c.add(2);
    assert_eq!(*c.value(), 3);
    let mut c = ClampedValue::<u32>::new(u32::MIN, u32::MAX - 1, u32::MAX).unwrap();
    c.add(5);
    assert_eq!(*c.value(), u32::MAX);
}

#[test]
fn subtract_on_u32() {
    let mut c = ClampedValue::<u32>::new(0, 50, 100).unwrap();
    c.subtract(20);
    assert_eq!(*c.value(), 30);
    let mut c = ClampedValue::<u32>::new(u32::MIN, u32::MIN + 1, u32::MAX).unwrap();
    c.subtract(5);
    assert_eq!(*c.value(), u32::MIN);
}

#[test]
fn multiply_on_u32() {
    let mut c = ClampedValue::<u32>::new(0, 3, 100).unwrap();
    c.multiply(4);
    assert_eq!(*c.value(), 12);
    let mut c = ClampedValue::<u32>::new(u32::MIN, u32::MAX / 2 + 1, u32::MAX).unwrap();
    c.multiply(2);
    assert_eq!(*c.value(), u32::MAX);
}

#[test]
fn add_on_u64() {
    let mut c = ClampedValue::<u64>::new(0, 1, 100).unwrap();
    c.add(2);
    assert_eq!(*c.value(), 3);
    let mut c = ClampedValue::<u64>::new(u64::MIN, u64::MAX - 1, u64::MAX).unwrap();
    c.add(5);
    assert_eq!(*c.value(), u64::MAX);
}

#[test]
fn subtract_on_u64() {
    let mut c = ClampedValue::<u64>::new(0, 50, 100).unwrap();
    c.subtract(20);
    assert_eq!(*c.value(), 30);
    let mut c = ClampedValue::<u64>::new(u64::MIN, u64::MIN + 1, u64::MAX).unwrap();
    c.subtract(5);
    assert_eq!(*c.value(), u64::MIN);
}

#[test]
fn multiply_on_u64() {
    let mut c = ClampedValue::<u64>::new(0, 3, 100).unwrap();
    c.multiply(4);
    assert_eq!(*c.value(), 12);
    let mut c = ClampedValue::<u64>::new(u64::MIN, u64::MAX / 2 + 1, u64::MAX).unwrap();
    c.multiply(2);
    assert_eq!(*c.value(), u64::MAX);
}

#[test]
fn add_on_u128() {
    let mut c = ClampedValue::<u128>::new(0, 1, 100).unwrap();
    c.add(2);
    assert_eq!(*c.value(), 3);
    let mut c = ClampedValue::<u128>::new(u128::MIN, u128::MAX - 1, u128::MAX).unwrap();
    c.add(5);
    assert_eq!(*c.value(), u128::MAX);
}

#[test]
fn subtract_on_u128() {
    let mut c = ClampedValue::<u128>::new(0, 50, 100).unwrap();
    c.subtract(20);
    assert_eq!(*c.value(), 30);
    let mut c = ClampedValue::<u128>::new(u128::MIN, u128::MIN + 1, u128::MAX).unwrap();
    c.subtract(5);
    assert_eq!(*c.value(), u128::MIN);
}

#[test]
fn multiply_on_u128() {
    let mut c = ClampedValue::<u128>::new(0, 3, 100).unwrap();
    c.multiply(4);
    assert_eq!(*c.value(), 12);
    let mut c = ClampedValue::<u128>::new(u128::MIN, u128::MAX / 2 + 1, u128::MAX).unwrap();
    c.multiply(2);
    assert_eq!(*c.value(), u128::MAX);
}

#[test]
fn add_on_usize() {
    let mut c = ClampedValue::<usize>::new(0, 1, 100).unwrap();
    c.add(2);
    assert_eq!(*c.value(), 3);
    let mut c = ClampedValue::<usize>::new(usize::MIN, usize::MAX - 1, usize::MAX).unwrap();
    c.add(5);
    assert_eq!(*c.value(), usize::MAX);
}

#[test]
fn subtract_on_usize() {
    let mut c = ClampedValue::<usize>::new(0, 50, 100).unwrap();
    c.subtract(20);
    assert_eq!(*c.value(), 30);
    let mut c = ClampedValue::<usize>::new(usize::MIN, usize::MIN + 1, usize::MAX).unwrap();
    c.subtract(5);
    assert_eq!(*c.value(), usize::MIN);
}

#[test]
fn multiply_on_usize() {
    let mut c = ClampedValue::<usize>::new(0, 3, 100).unwrap();
    c.multiply(4);
    assert_eq!(*c.value(), 12);
    let mut c = ClampedValue::<usize>::new(usize::MIN, usize::MAX / 2 + 1, usize::MAX).unwrap();
    c.multiply(2);
    assert_eq!(*c.value(), usize::MAX);
}
