use arrise::{Deserialize, DeserializeOptionError, Serialize, SerialSize};
use std::fmt::Debug;

type Data = [usize; 10];

const X: Data = [0, 1, 2, 3, 4, 5, 6, 7, 8, 9];

fn same_type<const SIZE: usize, T>(x: [T; SIZE]) -> [T; SIZE] {
    x
}

fn assert_serial_eq<T>(x: &T)
where
    T: Serialize + Deserialize + PartialEq + Debug,
    T::Error: Debug,
{
    let mut buf = vec![0u8; <T as SerialSize>::size()];
    <T as Serialize>::serialize(x, &mut buf);
    let de = <T as Deserialize>::deserialize(&buf).expect("deserialization failed");
    assert_eq!(x, &de);
}

#[test]
fn test_data() {
    assert_serial_eq::<Data>(&X);
}

#[test]
fn test_none() {
    let none = None;
    assert_serial_eq::<Option<Data>>(&none);
}

#[test]
fn test_some() {
    let none = None;
    let some = Some(X);

    same_type([some, none]);

    assert_serial_eq::<Option<Data>>(&some);
}

#[test]
fn test_nested() {
    let none = None;
    let some = Some(X);
    let some_none = Some(none);
    let some_some = Some(some);

    same_type([some, none]);
    same_type([some_none, some_some]);

    assert_serial_eq::<Option<Option<Data>>>(&some_none);
    assert_serial_eq::<Option<Option<Data>>>(&some_some);
}

#[test]
fn option_size_is_tag_plus_payload() {
    assert_eq!(<Option<i32> as SerialSize>::size(), 5);
    assert_eq!(<Option<Data> as SerialSize>::size(), 1 + 10 * std::mem::size_of::<usize>());
    assert_eq!(<Option<Option<u8>> as SerialSize>::size(), 3);
}

#[test]
fn option_some_layout() {
    let mut buf = vec![0xAAu8; 5];
    Some(5i32).serialize(&mut buf);
    assert_eq!(buf, vec![1, 5, 0, 0, 0]);
}

#[test]
fn option_none_layout_is_zero_filled() {
    let mut buf = vec![0xAAu8; 5];
    None::<i32>.serialize(&mut buf);
    assert_eq!(buf, vec![0, 0, 0, 0, 0]);
}

#[test]
fn option_tag_zero_ignores_payload() {
    let buf = [0u8, 0xFF, 0x12, 0x34, 0x56];
    assert_eq!(<Option<i32>>::deserialize(&buf), Ok(None));
    let buf = [0u8, 7, 7, 7, 7];
    assert_eq!(<Option<bool>>::deserialize(&buf[..2]), Ok(None));
}

#[test]
fn option_illegal_tag() {
    for tag in [2u8, 3, 0x80, 0xFF] {
        let buf = [tag, 1];
        assert_eq!(
            <Option<bool>>::deserialize(&buf),
            Err(DeserializeOptionError::IllegalTag)
        );
    }
    // The payload would be invalid too, but the tag is reported.
    let buf = [9u8, 9];
    assert_eq!(
        <Option<bool>>::deserialize(&buf),
        Err(DeserializeOptionError::IllegalTag)
    );
}

#[test]
fn option_payload_error() {
    let buf = [1u8, 2];
    assert_eq!(
        <Option<bool>>::deserialize(&buf),
        Err(DeserializeOptionError::Data(arrise::IllegalBitPattern))
    );
    let buf = [1u8, 1];
    assert_eq!(<Option<bool>>::deserialize(&buf), Ok(Some(true)));
}

#[test]
fn option_nested_errors() {
    let buf = [1u8, 5, 0];
    assert_eq!(
        <Option<Option<u8>>>::deserialize(&buf),
        Err(DeserializeOptionError::Data(DeserializeOptionError::IllegalTag))
    );
}

#[test]
fn option_into_uninit() {
    let mut slot = std::mem::MaybeUninit::<Option<u16>>::uninit();
    let buf = [1u8, 0x34, 0x12];
    assert_eq!(<Option<u16>>::deserialize_into_uninit(&mut slot, &buf), Ok(()));
    let buf = [4u8, 0x34, 0x12];
    assert_eq!(
        <Option<u16>>::deserialize_into_uninit(&mut slot, &buf),
        Err(DeserializeOptionError::IllegalTag)
    );
}
