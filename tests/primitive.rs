use arrise::{Deserialize, IllegalBitPattern, InvalidScalarValue, SerialSize, Serialize};
use std::fmt::Debug;

fn assert_serial_eq<T>(x: &T)
where
    T: Serialize + Deserialize + PartialEq + Debug,
    T::Error: Debug,
{
    let mut buf = vec![0u8; <T as SerialSize>::size()];
    <T as Serialize>::serialize(x, &mut buf);
    let de = <T as Deserialize>::deserialize(&buf).expect("deserialization failed");
    assert_eq!(x, &de);
}

#[test]
fn primitive_test_bool() {
    assert_serial_eq::<bool>(&false);
    assert_serial_eq::<bool>(&true);
}

#[test]
fn primitive_test_u8() {
    type T = u8;

    assert_serial_eq::<T>(&0);
    assert_serial_eq::<T>(&T::MIN);
    assert_serial_eq::<T>(&T::MAX);

    assert_serial_eq::<T>(&1);
    assert_serial_eq::<T>(&0x34);
    assert_serial_eq::<T>(&0x43);
}

#[test]
fn primitive_test_i8() {
    type T = i8;

    assert_serial_eq::<T>(&0);
    assert_serial_eq::<T>(&T::MIN);
    assert_serial_eq::<T>(&T::MAX);

    assert_serial_eq::<T>(&1);
    assert_serial_eq::<T>(&-1);
    assert_serial_eq::<T>(&0x34);
    assert_serial_eq::<T>(&-0x34);
    assert_serial_eq::<T>(&0x43);
    assert_serial_eq::<T>(&-0x43);
}

#[test]
fn primitive_test_u16() {
    type T = u16;

    assert_serial_eq::<T>(&0);
    assert_serial_eq::<T>(&T::MIN);
    assert_serial_eq::<T>(&T::MAX);

    assert_serial_eq::<T>(&1);
    assert_serial_eq::<T>(&0x1234);
    assert_serial_eq::<T>(&0x4321);
}

#[test]
fn primitive_test_i16() {
    type T = i16;

    assert_serial_eq::<T>(&0);
    assert_serial_eq::<T>(&T::MIN);
    assert_serial_eq::<T>(&T::MAX);

    assert_serial_eq::<T>(&1);
    assert_serial_eq::<T>(&-1);
    assert_serial_eq::<T>(&0x1234);
    assert_serial_eq::<T>(&-0x1234);
    assert_serial_eq::<T>(&0x4321);
    assert_serial_eq::<T>(&-0x4321);
}

#[test]
fn primitive_test_u32() {
    type T = u32;

    assert_serial_eq::<T>(&0);
    assert_serial_eq::<T>(&T::MIN);
    assert_serial_eq::<T>(&T::MAX);

    assert_serial_eq::<T>(&1);
    assert_serial_eq::<T>(&0x12345678);
    assert_serial_eq::<T>(&0x87654321);
}

#[test]
fn primitive_test_i32() {
    type T = i32;

    assert_serial_eq::<T>(&0);
    assert_serial_eq::<T>(&T::MIN);
    assert_serial_eq::<T>(&T::MAX);

    assert_serial_eq::<T>(&1);
    assert_serial_eq::<T>(&-1);
    assert_serial_eq::<T>(&0x12345678);
    assert_serial_eq::<T>(&-0x12345678);
    assert_serial_eq::<T>(&0x43218765);
    assert_serial_eq::<T>(&-0x43218765);
}

#[test]
fn primitive_test_u64() {
    type T = u64;

    assert_serial_eq::<T>(&0);
    assert_serial_eq::<T>(&T::MIN);
    assert_serial_eq::<T>(&T::MAX);

    assert_serial_eq::<T>(&1);
    assert_serial_eq::<T>(&0x123456789ABCDEF8);
    assert_serial_eq::<T>(&0x8FEDCBA987654321);
}

#[test]
fn primitive_test_i64() {
    type T = i64;

    assert_serial_eq::<T>(&0);
    assert_serial_eq::<T>(&T::MIN);
    assert_serial_eq::<T>(&T::MAX);

    assert_serial_eq::<T>(&1);
    assert_serial_eq::<T>(&-1);
    assert_serial_eq::<T>(&0x123456789ABCDEF8);
    assert_serial_eq::<T>(&-0x123456789ABCDEF8);
    assert_serial_eq::<T>(&0x43218FEDCBA98765);
    assert_serial_eq::<T>(&-0x43218FEDCBA98765);
}

#[test]
fn primitive_test_u128() {
    type T = u128;

    assert_serial_eq::<T>(&0);
    assert_serial_eq::<T>(&T::MIN);
    assert_serial_eq::<T>(&T::MAX);

    assert_serial_eq::<T>(&1);
    assert_serial_eq::<T>(&0x123456789ABCDEF88FEDCBA987654321);
    assert_serial_eq::<T>(&0x8FEDCBA987654321123456789ABCDEF8);
}

#[test]
fn primitive_test_i128() {
    type T = i128;

    assert_serial_eq::<T>(&0);
    assert_serial_eq::<T>(&T::MIN);
    assert_serial_eq::<T>(&T::MAX);

    assert_serial_eq::<T>(&1);
    assert_serial_eq::<T>(&-1);
    assert_serial_eq::<T>(&0x123456789ABCDEF88FEDCBA987654321);
    assert_serial_eq::<T>(&-0x123456789ABCDEF88FEDCBA987654321);
    assert_serial_eq::<T>(&0x43218FEDCBA9876556789ABCDEF81234);
    assert_serial_eq::<T>(&-0x43218FEDCBA9876556789ABCDEF81234);
}

#[test]
fn primitive_test_usize() {
    type T = usize;

    assert_serial_eq::<T>(&0);
    assert_serial_eq::<T>(&T::MIN);
    assert_serial_eq::<T>(&T::MAX);

    assert_serial_eq::<T>(&1);
    assert_serial_eq::<T>(&(0x123456789ABCDEF88FEDCBA987654321u128 as T));
    assert_serial_eq::<T>(&(0x8FEDCBA987654321123456789ABCDEF8u128 as T));
}

#[test]
fn primitive_test_isize() {
    type T = isize;

    assert_serial_eq::<T>(&0);
    assert_serial_eq::<T>(&T::MIN);
    assert_serial_eq::<T>(&T::MAX);

    assert_serial_eq::<T>(&1);
    assert_serial_eq::<T>(&-1);
    assert_serial_eq::<T>(&(0x123456789ABCDEF88FEDCBA987654321i128 as T));
    assert_serial_eq::<T>(&(-0x123456789ABCDEF88FEDCBA987654321i128 as T));
    assert_serial_eq::<T>(&(0x43218FEDCBA9876556789ABCDEF81234i128 as T));
    assert_serial_eq::<T>(&(-0x43218FEDCBA9876556789ABCDEF81234i128 as T));
}

#[test]
fn bool_layout_and_rejection() {
    let mut buf = [0xAAu8; 1];
    true.serialize(&mut buf);
    assert_eq!(buf, [0x01]);
    false.serialize(&mut buf);
    assert_eq!(buf, [0x00]);
    assert_eq!(bool::deserialize(&[0x01]), Ok(true));
    assert_eq!(bool::deserialize(&[0x00]), Ok(false));
    assert_eq!(bool::deserialize(&[0x02]), Err(IllegalBitPattern));
    for b in 2u8..=255 {
        assert_eq!(bool::deserialize(&[b]), Err(IllegalBitPattern));
    }
}

#[test]
fn u64_little_endian_layout() {
    let mut buf = [0u8; 8];
    1234u64.serialize(&mut buf);
    assert_eq!(buf, [0xD2, 0x04, 0, 0, 0, 0, 0, 0]);
    assert_eq!(u64::deserialize(&buf), Ok(1234));
}

#[test]
fn signed_layout_is_twos_complement() {
    let mut buf = [0u8; 2];
    (-2i16).serialize(&mut buf);
    assert_eq!(buf, [0xFE, 0xFF]);
    assert_eq!(i16::deserialize(&[0x00, 0x80]), Ok(i16::MIN));
    let mut buf = [0u8; 16];
    (-1i128).serialize(&mut buf);
    assert_eq!(buf, [0xFF; 16]);
    assert_eq!(i128::deserialize(&buf), Ok(-1));
    let mut buf = [0u8; 4];
    0x1234_5678i32.serialize(&mut buf);
    assert_eq!(buf, [0x78, 0x56, 0x34, 0x12]);
}

#[test]
fn scalar_sizes() {
    assert_eq!(<u8 as SerialSize>::size(), 1);
    assert_eq!(<i16 as SerialSize>::size(), 2);
    assert_eq!(<u32 as SerialSize>::size(), 4);
    assert_eq!(<i64 as SerialSize>::size(), 8);
    assert_eq!(<u128 as SerialSize>::size(), 16);
    assert_eq!(<usize as SerialSize>::size(), std::mem::size_of::<usize>());
    assert_eq!(<bool as SerialSize>::size(), 1);
    assert_eq!(<char as SerialSize>::size(), 4);
}

#[test]
fn char_scalar_value_rejection() {
    assert_eq!(char::deserialize(&[0x00, 0xD8, 0x00, 0x00]), Err(InvalidScalarValue));
    assert_eq!(char::deserialize(&[0xFF, 0xDF, 0x00, 0x00]), Err(InvalidScalarValue));
    assert_eq!(char::deserialize(&[0x00, 0x00, 0x11, 0x00]), Err(InvalidScalarValue));
    assert_eq!(char::deserialize(&[0x41, 0x00, 0x00, 0x00]), Ok('A'));
    assert_eq!(char::deserialize(&[0xFF, 0xFF, 0x10, 0x00]), Ok('\u{10FFFF}'));
    let mut buf = [0u8; 4];
    'A'.serialize(&mut buf);
    assert_eq!(buf, [0x41, 0, 0, 0]);
}

#[test]
fn char_round_trip() {
    for c in ['\0', 'A', 'é', '\u{D7FF}', '\u{E000}', '€', '🦀', '\u{10FFFF}'] {
        assert_serial_eq::<char>(&c);
    }
}
