use core::marker::PhantomData;
use waitcore::round_up;
use waitcore::util::LazyStatic;
use waitcore::util::MutableSeq;
use waitcore::util::OptMutPtr;
use waitcore::util::OptPtr;
use waitcore::util::RawString;
use waitcore::util::UintBits;

#[test]
fn round_up_lands_on_multiples() {
    assert_eq!(round_up(0, 4), 0);
    assert_eq!(round_up(1, 4), 4);
    assert_eq!(round_up(4, 4), 4);
    assert_eq!(round_up(5, 4), 8);
    assert_eq!(round_up(4095, 4096), 4096);
    assert_eq!(round_up(4097, 4096), 8192);
    assert_eq!(round_up(13, 1), 13);
}

#[test]
fn lazy_static_initialises_once() {
    let mut slot: LazyStatic<u32> = LazyStatic(None);
    slot.prep(|| 42);
    assert_eq!(slot.0, Some(42));
    slot.prep(|| 99);
    assert_eq!(slot.0, Some(42));
    assert_eq!(*slot.get(), 42);
}

#[test]
fn opt_ptr_is_its_address() {
    let none: OptPtr<u32> = OptPtr { addr: 0, marker: PhantomData };
    assert!(none.is_none());
    assert!(!none.is_some());
    let some: OptPtr<u32> = OptPtr { addr: 0x1000, marker: PhantomData };
    assert!(some.is_some());
    assert!(!some.is_none());
    assert_eq!(some.unwrap(), 0x1000);
}

#[test]
fn opt_mut_ptr_is_its_address() {
    let none: OptMutPtr<u8> = OptMutPtr { addr: 0, marker: PhantomData };
    assert!(none.is_none());
    let some: OptMutPtr<u8> = OptMutPtr { addr: 0x2000, marker: PhantomData };
    assert!(some.is_some());
    assert_eq!(some.unwrap(), 0x2000);
}

#[test]
fn bit_and_bits_extract_fields() {
    let v: u16 = 0xabcd;
    assert_eq!(v.bit(0), 1);
    assert_eq!(v.bit(1), 0);
    assert_eq!(v.bit(15), 1);
    assert_eq!(v.bits(4, 8), 0xc);
    assert_eq!(v.bits(0, 4), 0xd);
    assert_eq!(v.bits(8, 16), 0xab);
    assert_eq!(v.bits(3, 3), 0);
}

#[test]
fn raw_string_escapes_like_a_byte_literal() {
    let raw = RawString(vec![b'a', b'\\', b'\n', b'\r', b'"', 0x00, 0x01, 0x7f, 0x80]);
    let expected: Vec<u8> = vec![
        b'b', b'"', b'a', b'\\', b'\\', b'\\', b'n', b'\\', b'r', b'\\', b'"', b'\\', b'0', b'\\',
        b'x', b'0', b'1', 0x7f, b'\\', b'x', b'8', b'0', b'"',
    ];
    assert_eq!(raw.escaped(), expected);
}

#[test]
fn raw_string_of_nothing_is_an_empty_literal() {
    let raw = RawString(Vec::new());
    assert_eq!(raw.escaped(), vec![b'b', b'"', b'"']);
}

#[test]
fn vec_is_a_mutable_seq() {
    let mut v: Vec<u32> = Vec::new();
    MutableSeq::push(&mut v, 1);
    MutableSeq::push(&mut v, 2);
    assert_eq!(MutableSeq::pop(&mut v), Some(2));
    assert_eq!(MutableSeq::pop(&mut v), Some(1));
    assert_eq!(MutableSeq::<u32>::pop(&mut v), None);
}
