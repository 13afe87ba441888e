use arrise::nonzero::{
    NonZeroI128, NonZeroI16, NonZeroI32, NonZeroI64, NonZeroI8, NonZeroIsize, NonZeroU128,
    NonZeroU16, NonZeroU32, NonZeroU64, NonZeroU8, NonZeroUsize,
};
use arrise::{Deserialize, IllegalBitPattern, SerialSize, Serialize};
use std::fmt::Debug;

fn assert_serial_eq<T>(x: &T)
where
    T: Serialize + Deserialize + PartialEq + Debug,
    T::Error: Debug,
{
    let mut buf = vec![0u8; <T as SerialSize>::size()];
    <T as Serialize>::serialize(x, &mut buf);
    let de = <T as Deserialize>::deserialize(&buf).expect("deserialization failed");
    assert_eq!(x, &de);
}

#[test]
fn test_u8() {
    type T = NonZeroU8;

    assert_serial_eq::<T>(&T::new(1).unwrap());
    assert_serial_eq::<T>(&T::new(u8::MAX).unwrap());

    assert_serial_eq::<T>(&T::new(1).unwrap());
    assert_serial_eq::<T>(&T::new(0x34).unwrap());
    assert_serial_eq::<T>(&T::new(0x43).unwrap());
}

#[test]
fn test_i8() {
    type T = NonZeroI8;

    assert_serial_eq::<T>(&T::new(i8::MIN).unwrap());
    assert_serial_eq::<T>(&T::new(i8::MIN).unwrap());

    assert_serial_eq::<T>(&T::new(1).unwrap());
    assert_serial_eq::<T>(&T::new(-1).unwrap());
    assert_serial_eq::<T>(&T::new(0x34).unwrap());
    assert_serial_eq::<T>(&T::new(-0x34).unwrap());
    assert_serial_eq::<T>(&T::new(0x43).unwrap());
    assert_serial_eq::<T>(&T::new(-0x43).unwrap());
}

#[test]
fn test_u16() {
    type T = NonZeroU16;

    assert_serial_eq::<T>(&T::new(1).unwrap());
    assert_serial_eq::<T>(&T::new(u16::MAX).unwrap());

    assert_serial_eq::<T>(&T::new(1).unwrap());
    assert_serial_eq::<T>(&T::new(0x1234).unwrap());
    assert_serial_eq::<T>(&T::new(0x4321).unwrap());
}

#[test]
fn test_i16() {
    type T = NonZeroI16;

    assert_serial_eq::<T>(&T::new(i16::MIN).unwrap());
    assert_serial_eq::<T>(&T::new(i16::MAX).unwrap());

    assert_serial_eq::<T>(&T::new(1).unwrap());
    assert_serial_eq::<T>(&T::new(-1).unwrap());
    assert_serial_eq::<T>(&T::new(0x1234).unwrap());
    assert_serial_eq::<T>(&T::new(-0x1234).unwrap());
    assert_serial_eq::<T>(&T::new(0x4321).unwrap());
    assert_serial_eq::<T>(&T::new(-0x4321).unwrap());
}

#[test]
fn test_u32() {
    type T = NonZeroU32;

    assert_serial_eq::<T>(&T::new(1).unwrap());
    assert_serial_eq::<T>(&T::new(u32::MAX).unwrap());

    assert_serial_eq::<T>(&T::new(1).unwrap());
    assert_serial_eq::<T>(&T::new(0x12345678).unwrap());
    assert_serial_eq::<T>(&T::new(0x87654321).unwrap());
}

#[test]
fn test_i32() {
    type T = NonZeroI32;

    assert_serial_eq::<T>(&T::new(i32::MIN).unwrap());
    assert_serial_eq::<T>(&T::new(i32::MAX).unwrap());

    assert_serial_eq::<T>(&T::new(1).unwrap());
    assert_serial_eq::<T>(&T::new(-1).unwrap());
    assert_serial_eq::<T>(&T::new(0x12345678).unwrap());
    assert_serial_eq::<T>(&T::new(-0x12345678).unwrap());
    assert_serial_eq::<T>(&T::new(0x43218765).unwrap());
    assert_serial_eq::<T>(&T::new(-0x43218765).unwrap());
}

#[test]
fn test_u64() {
    type T = NonZeroU64;

    assert_serial_eq::<T>(&T::new(1).unwrap());
    assert_serial_eq::<T>(&T::new(u64::MAX).unwrap());

    assert_serial_eq::<T>(&T::new(1).unwrap());
    assert_serial_eq::<T>(&T::new(0x123456789ABCDEF8).unwrap());
    assert_serial_eq::<T>(&T::new(0x8FEDCBA987654321).unwrap());
}

#[test]
fn test_i64() {
    type T = NonZeroI64;

    assert_serial_eq::<T>(&T::new(i64::MIN).unwrap());
    assert_serial_eq::<T>(&T::new(i64::MAX).unwrap());

    assert_serial_eq::<T>(&T::new(1).unwrap());
    assert_serial_eq::<T>(&T::new(-1).unwrap());
    assert_serial_eq::<T>(&T::new(0x123456789ABCDEF8).unwrap());
    assert_serial_eq::<T>(&T::new(-0x123456789ABCDEF8).unwrap());
    assert_serial_eq::<T>(&T::new(0x43218FEDCBA98765).unwrap());
    assert_serial_eq::<T>(&T::new(-0x43218FEDCBA98765).unwrap());
}

#[test]
fn test_u128() {
    type T = NonZeroU128;

    assert_serial_eq::<T>(&T::new(1).unwrap());
    assert_serial_eq::<T>(&T::new(u128::MAX).unwrap());

    assert_serial_eq::<T>(&T::new(1).unwrap());
    assert_serial_eq::<T>(&T::new(0x123456789ABCDEF88FEDCBA987654321).unwrap());
    assert_serial_eq::<T>(&T::new(0x8FEDCBA987654321123456789ABCDEF8).unwrap());
}

#[test]
fn test_i128() {
    type T = NonZeroI128;

    assert_serial_eq::<T>(&T::new(i128::MIN).unwrap());
    assert_serial_eq::<T>(&T::new(i128::MAX).unwrap());

    assert_serial_eq::<T>(&T::new(1).unwrap());
    assert_serial_eq::<T>(&T::new(-1).unwrap());
    assert_serial_eq::<T>(&T::new(0x123456789ABCDEF88FEDCBA987654321).unwrap());
    assert_serial_eq::<T>(&T::new(-0x123456789ABCDEF88FEDCBA987654321).unwrap());
    assert_serial_eq::<T>(&T::new(0x43218FEDCBA9876556789ABCDEF81234).unwrap());
    assert_serial_eq::<T>(&T::new(-0x43218FEDCBA9876556789ABCDEF81234).unwrap());
}

#[test]
fn test_usize() {
    type T = NonZeroUsize;
    type Base = usize;

    assert_serial_eq::<T>(&T::new(1).unwrap());
    assert_serial_eq::<T>(&T::new(usize::MAX).unwrap());

    assert_serial_eq::<T>(&T::new(1).unwrap());
    assert_serial_eq::<T>(&T::new(0x123456789ABCDEF88FEDCBA987654321u128 as Base).unwrap());
    assert_serial_eq::<T>(&T::new(0x8FEDCBA987654321123456789ABCDEF8u128 as Base).unwrap());
}

#[test]
fn test_isize() {
    type T = NonZeroIsize;
    type Base = isize;

    assert_serial_eq::<T>(&T::new(isize::MIN).unwrap());
    assert_serial_eq::<T>(&T::new(isize::MAX).unwrap());

    assert_serial_eq::<T>(&T::new(1).unwrap());
    assert_serial_eq::<T>(&T::new(-1).unwrap());
    assert_serial_eq::<T>(&T::new(0x123456789ABCDEF88FEDCBA987654321i128 as Base).unwrap());
    assert_serial_eq::<T>(&T::new(-0x123456789ABCDEF88FEDCBA987654321i128 as Base).unwrap());
    assert_serial_eq::<T>(&T::new(0x43218FEDCBA9876556789ABCDEF81234i128 as Base).unwrap());
    assert_serial_eq::<T>(&T::new(-0x43218FEDCBA9876556789ABCDEF81234i128 as Base).unwrap());
}

#[test]
fn nonzero_rejects_zero_window() {
    assert_eq!(NonZeroU8::deserialize(&[0]), Err(IllegalBitPattern));
    assert_eq!(NonZeroI16::deserialize(&[0, 0]), Err(IllegalBitPattern));
    assert_eq!(NonZeroU32::deserialize(&[0; 4]), Err(IllegalBitPattern));
    assert_eq!(NonZeroI64::deserialize(&[0; 8]), Err(IllegalBitPattern));
    assert_eq!(NonZeroU128::deserialize(&[0; 16]), Err(IllegalBitPattern));
    let zeros = vec![0u8; std::mem::size_of::<usize>()];
    assert_eq!(NonZeroUsize::deserialize(&zeros), Err(IllegalBitPattern));
    assert_eq!(NonZeroIsize::deserialize(&zeros), Err(IllegalBitPattern));
    assert_eq!(NonZeroU16::deserialize(&[0, 0]), Err(IllegalBitPattern));
    assert_eq!(NonZeroI8::deserialize(&[0]), Err(IllegalBitPattern));
    assert_eq!(NonZeroI32::deserialize(&[0; 4]), Err(IllegalBitPattern));
    assert_eq!(NonZeroU64::deserialize(&[0; 8]), Err(IllegalBitPattern));
    assert_eq!(NonZeroI128::deserialize(&[0; 16]), Err(IllegalBitPattern));
}

#[test]
fn nonzero_new_and_layout() {
    assert!(NonZeroU8::new(0).is_none());
    assert_eq!(NonZeroI32::new(-7).map(|n| n.get()), Some(-7));
    let mut buf = [0u8; 2];
    NonZeroU16::new(0x0102).unwrap().serialize(&mut buf);
    assert_eq!(buf, [0x02, 0x01]);
    assert_eq!(NonZeroU16::deserialize(&[0x00, 0x01]).map(|n| n.get()), Ok(0x100));
}
