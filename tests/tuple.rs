use arrise::tuple::{TupleError2, TupleError3};
use arrise::{Deserialize, DeserializeOptionError, IllegalBitPattern, SerialSize, Serialize};
use std::fmt::Debug;

fn assert_serial_eq<T>(x: &T)
where
    T: Serialize + Deserialize + PartialEq + Debug,
    T::Error: Debug,
{
    let mut buf = vec![0u8; <T as SerialSize>::size()];
    <T as Serialize>::serialize(x, &mut buf);
    let de = <T as Deserialize>::deserialize(&buf).expect("deserialization failed");
    assert_eq!(x, &de);
}

#[test]
fn nested_composite_round_trip() {
    type T = (
        u64,
        bool,
        i32,
        Option<[u16; 3]>,
        ((usize, bool), Option<i128>, [(bool, Option<u8>, i16); 2]),
    );
    assert_serial_eq::<T>(&(
        1234u64,
        true,
        -123456,
        Some([4, 9, 14]),
        ((2, false), None, [(true, None, 2i16), (false, Some(23), 38i16)]),
    ));
    assert_eq!(
        <T as SerialSize>::size(),
        8 + 1 + 4 + (1 + 6) + (std::mem::size_of::<usize>() + 1 + 17 + 2 * (1 + 2 + 2))
    );
}

#[test]
fn pair_layout() {
    assert_eq!(<(u8, bool) as SerialSize>::size(), 2);
    let mut buf = [0u8; 2];
    (7u8, true).serialize(&mut buf);
    assert_eq!(buf, [0x07, 0x01]);
    assert_eq!(<(u8, bool)>::deserialize(&buf), Ok((7, true)));
}

#[test]
fn field_attribution() {
    let mut buf = [0u8; 4];
    (9u8, true, -3i16).serialize(&mut buf);
    assert_eq!(<(u8, bool, i16)>::deserialize(&buf), Ok((9, true, -3)));
    buf[1] = 0x07;
    assert_eq!(
        <(u8, bool, i16)>::deserialize(&buf),
        Err(TupleError3::Field1(IllegalBitPattern))
    );
}

#[test]
fn first_failing_field_wins() {
    let buf = [5u8, 5];
    assert_eq!(
        <(bool, bool)>::deserialize(&buf),
        Err(TupleError2::Field0(IllegalBitPattern))
    );
    let buf = [1u8, 5];
    assert_eq!(
        <(bool, bool)>::deserialize(&buf),
        Err(TupleError2::Field1(IllegalBitPattern))
    );
}

#[test]
fn field_error_carries_inner_error() {
    let buf = [0u8, 3, 0];
    assert_eq!(
        <(u8, Option<bool>)>::deserialize(&buf[..3]),
        Err(TupleError2::Field1(DeserializeOptionError::IllegalTag))
    );
}

#[test]
fn unit_and_large_tuples() {
    assert_eq!(<() as SerialSize>::size(), 0);
    assert_serial_eq::<()>(&());
    assert_serial_eq::<(u8,)>(&(3,));
    type Twelve = (u8, u16, u32, u64, i8, i16, i32, i64, bool, char, u128, i128);
    assert_eq!(<Twelve as SerialSize>::size(), 1 + 2 + 4 + 8 + 1 + 2 + 4 + 8 + 1 + 4 + 16 + 16);
    assert_serial_eq::<Twelve>(&(1, 2, 3, 4, -5, -6, -7, -8, true, 'x', 11, -12));
}

#[test]
fn array_windows_are_independent() {
    assert_eq!(<[u32; 3] as SerialSize>::size(), 12);
    let mut buf = [0u8; 12];
    [1u32, 2, 3].serialize(&mut buf);
    assert_eq!(buf, [1, 0, 0, 0, 2, 0, 0, 0, 3, 0, 0, 0]);
    assert_eq!(<[u32; 3]>::deserialize(&buf), Ok([1, 2, 3]));
    buf[4..8].copy_from_slice(&[0xEF, 0xBE, 0xAD, 0xDE]);
    let de = <[u32; 3]>::deserialize(&buf).unwrap();
    assert_eq!(de[0], 1);
    assert_eq!(de[1], 0xDEADBEEF);
    assert_eq!(de[2], 3);
}

#[test]
fn array_first_failing_element() {
    let buf = [1u8, 7, 9, 0];
    assert_eq!(<[bool; 4]>::deserialize(&buf), Err(IllegalBitPattern));
    let buf = [1u8, 0, 1, 0];
    assert_eq!(<[bool; 4]>::deserialize(&buf), Ok([true, false, true, false]));
}

#[test]
fn zero_size_arrays() {
    assert_eq!(<[(); 1000] as SerialSize>::size(), 0);
    assert_eq!(<[u64; 0] as SerialSize>::size(), 0);
    let mut empty: [u8; 0] = [];
    [(); 1000].serialize(&mut empty);
    [7u64; 0].serialize(&mut empty);
    assert_eq!(<[(); 1000]>::deserialize(&empty), Ok([(); 1000]));
    assert_eq!(<[u64; 0]>::deserialize(&empty), Ok([]));
    assert_eq!(<[[bool; 0]; 5]>::deserialize(&empty), Ok([[]; 5]));
}
