use arrise::{Deserialize, SerialSize, Serialize};
use std::fmt::Debug;
use std::sync::atomic::{
    AtomicBool, AtomicI16, AtomicI32, AtomicI64, AtomicI8, AtomicIsize, AtomicU16, AtomicU32,
    AtomicU64, AtomicU8, AtomicUsize, Ordering,
};

fn assert_serial_eq_by<T, V>(x: &T, load: impl Fn(&T) -> V)
where
    T: Serialize + Deserialize,
    T::Error: Debug,
    V: PartialEq + Debug,
{
    let mut buf = vec![0u8; <T as SerialSize>::size()];
    <T as Serialize>::serialize(x, &mut buf);
    let de = <T as Deserialize>::deserialize(&buf).expect("deserialization failed");
    assert_eq!(load(x), load(&de));
}

#[test]
fn test_bool() {
    let load = |atomic: &AtomicBool| atomic.load(Ordering::SeqCst);
    assert_serial_eq_by(&AtomicBool::new(false), load);
    assert_serial_eq_by(&AtomicBool::new(true), load);
}

#[test]
fn atomic_test_u8() {
    type T = AtomicU8;
    type Base = u8;

    let load = |atomic: &T| atomic.load(Ordering::SeqCst);
    assert_serial_eq_by(&T::new(Base::MIN), load);
    assert_serial_eq_by(&T::new(Base::MAX), load);

    assert_serial_eq_by(&T::new(1), load);
    assert_serial_eq_by(&T::new(0x34), load);
    assert_serial_eq_by(&T::new(0x43), load);
}

#[test]
fn atomic_test_i8() {
    type T = AtomicI8;
    type Base = i8;

    let load = |atomic: &T| atomic.load(Ordering::SeqCst);
    assert_serial_eq_by(&T::new(Base::MIN), load);
    assert_serial_eq_by(&T::new(Base::MIN), load);

    assert_serial_eq_by(&T::new(1), load);
    assert_serial_eq_by(&T::new(-1), load);
    assert_serial_eq_by(&T::new(0x34), load);
    assert_serial_eq_by(&T::new(-0x34), load);
    assert_serial_eq_by(&T::new(0x43), load);
    assert_serial_eq_by(&T::new(-0x43), load);
}

#[test]
fn atomic_test_u16() {
    type T = AtomicU16;
    type Base = u16;

    let load = |atomic: &T| atomic.load(Ordering::SeqCst);
    assert_serial_eq_by(&T::new(Base::MIN), load);
    assert_serial_eq_by(&T::new(Base::MAX), load);

    assert_serial_eq_by(&T::new(1), load);
    assert_serial_eq_by(&T::new(0x1234), load);
    assert_serial_eq_by(&T::new(0x4321), load);
}

#[test]
fn atomic_test_i16() {
    type T = AtomicI16;
    type Base = i16;

    let load = |atomic: &T| atomic.load(Ordering::SeqCst);
    assert_serial_eq_by(&T::new(Base::MIN), load);
    assert_serial_eq_by(&T::new(Base::MAX), load);

    assert_serial_eq_by(&T::new(1), load);
    assert_serial_eq_by(&T::new(-1), load);
    assert_serial_eq_by(&T::new(0x1234), load);
    assert_serial_eq_by(&T::new(-0x1234), load);
    assert_serial_eq_by(&T::new(0x4321), load);
    assert_serial_eq_by(&T::new(-0x4321), load);
}

#[test]
fn atomic_test_u32() {
    type T = AtomicU32;
    type Base = u32;

    let load = |atomic: &T| atomic.load(Ordering::SeqCst);
    assert_serial_eq_by(&T::new(Base::MIN), load);
    assert_serial_eq_by(&T::new(Base::MAX), load);

    assert_serial_eq_by(&T::new(1), load);
    assert_serial_eq_by(&T::new(0x12345678), load);
    assert_serial_eq_by(&T::new(0x87654321), load);
}

#[test]
fn atomic_test_i32() {
    type T = AtomicI32;
    type Base = i32;

    let load = |atomic: &T| atomic.load(Ordering::SeqCst);
    assert_serial_eq_by(&T::new(Base::MIN), load);
    assert_serial_eq_by(&T::new(Base::MAX), load);

    assert_serial_eq_by(&T::new(1), load);
    assert_serial_eq_by(&T::new(-1), load);
    assert_serial_eq_by(&T::new(0x12345678), load);
    assert_serial_eq_by(&T::new(-0x12345678), load);
    assert_serial_eq_by(&T::new(0x43218765), load);
    assert_serial_eq_by(&T::new(-0x43218765), load);
}

#[test]
fn atomic_test_u64() {
    type T = AtomicU64;
    type Base = u64;

    let load = |atomic: &T| atomic.load(Ordering::SeqCst);
    assert_serial_eq_by(&T::new(Base::MIN), load);
    assert_serial_eq_by(&T::new(Base::MAX), load);

    assert_serial_eq_by(&T::new(1), load);
    assert_serial_eq_by(&T::new(0x123456789ABCDEF8), load);
    assert_serial_eq_by(&T::new(0x8FEDCBA987654321), load);
}

#[test]
fn atomic_test_i64() {
    type T = AtomicI64;
    type Base = i64;

    let load = |atomic: &T| atomic.load(Ordering::SeqCst);
    assert_serial_eq_by(&T::new(Base::MIN), load);
    assert_serial_eq_by(&T::new(Base::MAX), load);

    assert_serial_eq_by(&T::new(1), load);
    assert_serial_eq_by(&T::new(-1), load);
    assert_serial_eq_by(&T::new(0x123456789ABCDEF8), load);
    assert_serial_eq_by(&T::new(-0x123456789ABCDEF8), load);
    assert_serial_eq_by(&T::new(0x43218FEDCBA98765), load);
    assert_serial_eq_by(&T::new(-0x43218FEDCBA98765), load);
}

#[test]
fn atomic_test_usize() {
    type T = AtomicUsize;
    type Base = usize;

    let load = |atomic: &T| atomic.load(Ordering::SeqCst);
    assert_serial_eq_by(&T::new(Base::MIN), load);
    assert_serial_eq_by(&T::new(Base::MAX), load);

    assert_serial_eq_by(&T::new(1), load);
    assert_serial_eq_by(&T::new(0x123456789ABCDEF88FEDCBA987654321u128 as Base), load);
    assert_serial_eq_by(&T::new(0x8FEDCBA987654321123456789ABCDEF8u128 as Base), load);
}

#[test]
fn atomic_test_isize() {
    type T = AtomicIsize;
    type Base = isize;

    let load = |atomic: &T| atomic.load(Ordering::SeqCst);
    assert_serial_eq_by(&T::new(Base::MIN), load);
    assert_serial_eq_by(&T::new(Base::MAX), load);

    assert_serial_eq_by(&T::new(1), load);
    assert_serial_eq_by(&T::new(-1), load);
    assert_serial_eq_by(&T::new(0x123456789ABCDEF88FEDCBA987654321i128 as Base), load);
    assert_serial_eq_by(&T::new(-0x123456789ABCDEF88FEDCBA987654321i128 as Base), load);
    assert_serial_eq_by(&T::new(0x43218FEDCBA9876556789ABCDEF81234i128 as Base), load);
    assert_serial_eq_by(&T::new(-0x43218FEDCBA9876556789ABCDEF81234i128 as Base), load);
}

#[test]
fn atomic_decode_builds_new_cell_with_value() {
    let cell = AtomicU32::deserialize(&[0x78, 0x56, 0x34, 0x12]).unwrap();
    assert_eq!(cell.load(Ordering::SeqCst), 0x1234_5678);
    let flag = AtomicBool::deserialize(&[1]).unwrap();
    assert!(flag.load(Ordering::SeqCst));
    assert_eq!(
        AtomicBool::deserialize(&[2]).map(|c| c.load(Ordering::SeqCst)),
        Err(arrise::IllegalBitPattern)
    );
}
