use integer_result::Ext;

#[test]
fn extremes_i8() {
    assert_eq!(i8::MIN.ok_less(i8::MAX), Ok(i8::MIN));
    assert_eq!(i8::MAX.ok_less(i8::MIN), Err(i8::MAX));
    assert_eq!(i8::MAX.ok_less(i8::MAX), Err(i8::MAX));
    assert_eq!(i8::MIN.ok_equal(i8::MIN), Ok(i8::MIN));
    assert_eq!(i8::MAX.ok_equal(i8::MIN), Err(i8::MAX));
    assert_eq!(i8::MAX.ok_greater(i8::MIN), Ok(i8::MAX));
    assert_eq!(i8::MIN.ok_greater(i8::MAX), Err(i8::MIN));
    assert_eq!(i8::MIN.ok_greater(i8::MIN), Err(i8::MIN));
}

#[test]
fn extremes_i16() {
    assert_eq!(i16::MIN.ok_less(i16::MAX), Ok(i16::MIN));
    assert_eq!(i16::MAX.ok_less(i16::MIN), Err(i16::MAX));
    assert_eq!(i16::MAX.ok_less(i16::MAX), Err(i16::MAX));
    assert_eq!(i16::MIN.ok_equal(i16::MIN), Ok(i16::MIN));
    assert_eq!(i16::MAX.ok_equal(i16::MIN), Err(i16::MAX));
    assert_eq!(i16::MAX.ok_greater(i16::MIN), Ok(i16::MAX));
    assert_eq!(i16::MIN.ok_greater(i16::MAX), Err(i16::MIN));
    assert_eq!(i16::MIN.ok_greater(i16::MIN), Err(i16::MIN));
}

#[test]
fn extremes_i32() {
    assert_eq!(i32::MIN.ok_less(i32::MAX), Ok(i32::MIN));
    assert_eq!(i32::MAX.ok_less(i32::MIN), Err(i32::MAX));
    assert_eq!(i32::MAX.ok_less(i32::MAX), Err(i32::MAX));
    assert_eq!(i32::MIN.ok_equal(i32::MIN), Ok(i32::MIN));
    assert_eq!(i32::MAX.ok_equal(i32::MIN), Err(i32::MAX));
    assert_eq!(i32::MAX.ok_greater(i32::MIN), Ok(i32::MAX));
    assert_eq!(i32::MIN.ok_greater(i32::MAX), Err(i32::MIN));
    assert_eq!(i32::MIN.ok_greater(i32::MIN), Err(i32::MIN));
}

#[test]
fn extremes_i64() {
    assert_eq!(i64::MIN.ok_less(i64::MAX), Ok(i64::MIN));
    assert_eq!(i64::MAX.ok_less(i64::MIN), Err(i64::MAX));
    assert_eq!(i64::MAX.ok_less(i64::MAX), Err(i64::MAX));
    assert_eq!(i64::MIN.ok_equal(i64::MIN), Ok(i64::MIN));
    assert_eq!(i64::MAX.ok_equal(i64::MIN), Err(i64::MAX));
    assert_eq!(i64::MAX.ok_greater(i64::MIN), Ok(i64::MAX));
    assert_eq!(i64::MIN.ok_greater(i64::MAX), Err(i64::MIN));
    assert_eq!(i64::MIN.ok_greater(i64::MIN), Err(i64::MIN));
}

#[test]
fn extremes_i128() {
    assert_eq!(i128::MIN.ok_less(i128::MAX), Ok(i128::MIN));
    assert_eq!(i128::MAX.ok_less(i128::MIN), Err(i128::MAX));
    assert_eq!(i128::MAX.ok_less(i128::MAX), Err(i128::MAX));
    assert_eq!(i128::MIN.ok_equal(i128::MIN), Ok(i128::MIN));
    assert_eq!(i128::MAX.ok_equal(i128::MIN), Err(i128::MAX));
    assert_eq!(i128::MAX.ok_greater(i128::MIN), Ok(i128::MAX));
    assert_eq!(i128::MIN.ok_greater(i128::MAX), Err(i128::MIN));
    assert_eq!(i128::MIN.ok_greater(i128::MIN), Err(i128::MIN));
}

#[test]
fn extremes_isize() {
    assert_eq!(isize::MIN.ok_less(isize::MAX), Ok(isize::MIN));
    assert_eq!(isize::MAX.ok_less(isize::MIN), Err(isize::MAX));
    assert_eq!(isize::MAX.ok_less(isize::MAX), Err(isize::MAX));
    assert_eq!(isize::MIN.ok_equal(isize::MIN), Ok(isize::MIN));
    assert_eq!(isize::MAX.ok_equal(isize::MIN), Err(isize::MAX));
    assert_eq!(isize::MAX.ok_greater(isize::MIN), Ok(isize::MAX));
    assert_eq!(isize::MIN.ok_greater(isize::MAX), Err(isize::MIN));
    assert_eq!(isize::MIN.ok_greater(isize::MIN), Err(isize::MIN));
}

#[test]
fn extremes_u8() {
    assert_eq!(u8::MIN.ok_less(u8::MAX), Ok(u8::MIN));
    assert_eq!(u8::MAX.ok_less(u8::MIN), Err(u8::MAX));
    assert_eq!(u8::MAX.ok_less(u8::MAX), Err(u8::MAX));
    assert_eq!(u8::MIN.ok_equal(u8::MIN), Ok(u8::MIN));
    assert_eq!(u8::MAX.ok_equal(u8::MIN), Err(u8::MAX));
    assert_eq!(u8::MAX.ok_greater(u8::MIN), Ok(u8::MAX));
    assert_eq!(u8::MIN.ok_greater(u8::MAX), Err(u8::MIN));
    assert_eq!(u8::MIN.ok_greater(u8::MIN), Err(u8::MIN));
}

#[test]
fn extremes_u16() {
    assert_eq!(u16::MIN.ok_less(u16::MAX), Ok(u16::MIN));
    assert_eq!(u16::MAX.ok_less(u16::MIN), Err(u16::MAX));
    assert_eq!(u16::MAX.ok_less(u16::MAX), Err(u16::MAX));
    assert_eq!(u16::MIN.ok_equal(u16::MIN), Ok(u16::MIN));
    assert_eq!(u16::MAX.ok_equal(u16::MIN), Err(u16::MAX));
    assert_eq!(u16::MAX.ok_greater(u16::MIN), Ok(u16::MAX));
    assert_eq!(u16::MIN.ok_greater(u16::MAX), Err(u16::MIN));
    assert_eq!(u16::MIN.ok_greater(u16::MIN), Err(u16::MIN));
}

#[test]
fn extremes_u32() {
    assert_eq!(u32::MIN.ok_less(u32::MAX), Ok(u32::MIN));
    assert_eq!(u32::MAX.ok_less(u32::MIN), Err(u32::MAX));
    assert_eq!(u32::MAX.ok_less(u32::MAX), Err(u32::MAX));
    assert_eq!(u32::MIN.ok_equal(u32::MIN), Ok(u32::MIN));
    assert_eq!(u32::MAX.ok_equal(u32::MIN), Err(u32::MAX));
    assert_eq!(u32::MAX.ok_greater(u32::MIN), Ok(u32::MAX));
    assert_eq!(u32::MIN.ok_greater(u32::MAX), Err(u32::MIN));
    assert_eq!(u32::MIN.ok_greater(u32::MIN), Err(u32::MIN));
}

#[test]
fn extremes_u64() {
    assert_eq!(u64::MIN.ok_less(u64::MAX), Ok(u64::MIN));
    assert_eq!(u64::MAX.ok_less(u64::MIN), Err(u64::MAX));
    assert_eq!(u64::MAX.ok_less(u64::MAX), Err(u64::MAX));
    assert_eq!(u64::MIN.ok_equal(u64::MIN), Ok(u64::MIN));
    assert_eq!(u64::MAX.ok_equal(u64::MIN), Err(u64::MAX));
    assert_eq!(u64::MAX.ok_greater(u64::MIN), Ok(u64::MAX));
    assert_eq!(u64::MIN.ok_greater(u64::MAX), Err(u64::MIN));
    assert_eq!(u64::MIN.ok_greater(u64::MIN), Err(u64::MIN));
}

#[test]
fn extremes_u128() {
    assert_eq!(u128::MIN.ok_less(u128::MAX), Ok(u128::MIN));
    assert_eq!(u128::MAX.ok_less(u128::MIN), Err(u128::MAX));
    assert_eq!(u128::MAX.ok_less(u128::MAX), Err(u128::MAX));
    assert_eq!(u128::MIN.ok_equal(u128::MIN), Ok(u128::MIN));
    assert_eq!(u128::MAX.ok_equal(u128::MIN), Err(u128::MAX));
    assert_eq!(u128::MAX.ok_greater(u128::MIN), Ok(u128::MAX));
    assert_eq!(u128::MIN.ok_greater(u128::MAX), Err(u128::MIN));
    assert_eq!(u128::MIN.ok_greater(u128::MIN), Err(u128::MIN));
}

#[test]
fn extremes_usize() {
    assert_eq!(usize::MIN.ok_less(usize::MAX), Ok(usize::MIN));
    assert_eq!(usize::MAX.ok_less(usize::MIN), Err(usize::MAX));
    assert_eq!(usize::MAX.ok_less(usize::MAX), Err(usize::MAX));
    assert_eq!(usize::MIN.ok_equal(usize::MIN), Ok(usize::MIN));
    assert_eq!(usize::MAX.ok_equal(usize::MIN), Err(usize::MAX));
    assert_eq!(usize::MAX.ok_greater(usize::MIN), Ok(usize::MAX));
    assert_eq!(usize::MIN.ok_greater(usize::MAX), Err(usize::MIN));
    assert_eq!(usize::MIN.ok_greater(usize::MIN), Err(usize::MIN));
}
