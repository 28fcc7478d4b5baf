use aex::util::bob::Bob;
use aex::util::byte_order::{Endian, BE, LE};
use aex::util::fmap::Fmap;
use aex::util::ref_eq;

#[test]
fn from_t() {
    let val: i32 = 42;
    let bob: Bob<i32> = Bob::from(val);
    match bob {
        Bob::Borrowed(_) => panic!(),
        Bob::Owned(ref o) => assert_eq!(**o, 42),
    }
}

#[test]
fn from_ref_t() {
    let val: i32 = 42;
    let bob: Bob<i32> = Bob::from(&val);
    match bob {
        Bob::Borrowed(b) => assert_eq!(*b, val),
        Bob::Owned(_) => panic!(),
    }
}

#[test]
fn bob_dup_borrows_same_value() {
    let bob: Bob<i32> = Bob::from(7);
    let d = bob.dup();
    assert!(matches!(d, Bob::Borrowed(_)));
    assert_eq!(*d, 7);
    assert!(d == bob);
}

#[test]
fn bob_clone_owns_equal_value() {
    let val = String::from("x");
    let bob: Bob<String> = Bob::from(&val);
    let c = bob.clone();
    assert!(matches!(c, Bob::Owned(_)));
    assert_eq!(c.as_ref(), "x");
}

#[test]
fn bob_compares_values() {
    let one = 1;
    let a: Bob<i32> = Bob::from(&one);
    let b: Bob<i32> = Bob::from(2);
    assert!(a < b);
    assert!(a <= b);
    assert!(b > a);
    assert!(b >= a);
    assert!(a != b);
    assert_eq!(a.partial_cmp(&b), Some(std::cmp::Ordering::Less));
}

#[test]
fn to_order_int() {
    let be: u16 = 0x1234.to_order(BE);
    let le: u16 = 0x1234.to_order(LE);
    assert_eq!(be.swap_bytes(), le);
}

#[test]
fn from_order_int() {
    let be: u16 = u16::from_order(BE, 0x1234);
    let le: u16 = u16::from_order(LE, 0x1234);
    assert_eq!(be.swap_bytes(), le);
}

#[test]
fn to_order_float() {
    // A float is converted through its bits.
    let be: f32 = f32::from_bits(12.34f32.to_bits().to_order(BE));
    let le: f32 = f32::from_bits(12.34f32.to_bits().to_order(LE));
    let be: u32 = be.to_bits();
    let le: u32 = le.to_bits();
    assert_eq!(be.swap_bytes(), le);
}

#[test]
fn from_order_float() {
    let be: f32 = f32::from_bits(u32::from_order(BE, 12.34f32.to_bits()));
    let le: f32 = f32::from_bits(u32::from_order(LE, 12.34f32.to_bits()));
    let be: u32 = be.to_bits();
    let le: u32 = le.to_bits();
    assert_eq!(be.swap_bytes(), le);
}

#[test]
fn byte_order_round_trip_all_widths() {
    for ord in [BE, LE] {
        assert_eq!(u16::from_order(ord, 0xBEEFu16.to_order(ord)), 0xBEEF);
        assert_eq!(i16::from_order(ord, (-2i16).to_order(ord)), -2);
        assert_eq!(u32::from_order(ord, 0xDEADBEEFu32.to_order(ord)), 0xDEADBEEF);
        assert_eq!(i32::from_order(ord, (-5i32).to_order(ord)), -5);
        assert_eq!(u64::from_order(ord, 0x0102030405060708u64.to_order(ord)), 0x0102030405060708);
        assert_eq!(i64::from_order(ord, (-9i64).to_order(ord)), -9);
        assert_eq!(usize::from_order(ord, 12345usize.to_order(ord)), 12345);
        assert_eq!(isize::from_order(ord, (-12345isize).to_order(ord)), -12345);
    }
}

#[test]
fn byte_order_big_endian_reads_most_significant_first() {
    let x: u32 = 0x01020304;
    assert_eq!(x.to_order(BE).to_ne_bytes(), [1, 2, 3, 4]);
    assert_eq!(x.to_order(LE).to_ne_bytes(), [4, 3, 2, 1]);
}

fn negate(x: &u8) -> i16 {
    -(*x as i16)
}

#[test]
fn fmap_0() {
    let empty: [u8; 0] = [];
    let out: [i16; 0] = empty.fmap(negate);
    assert_eq!(out, [0i16; 0]);
}

#[test]
fn fmap_1() {
    assert_eq!([-1i16], [1u8].fmap(negate));
}

#[test]
fn fmap_2() {
    assert_eq!([-1i16, -2], [1u8, 2].fmap(negate));
}

#[test]
fn mod_ref_eq_true() {
    let x = &"".to_string();
    let y = x;
    assert_eq!(ref_eq(x, y), true);
}

#[test]
fn ref_eq_true() {
    const X: &'static str = "xax";
    let x = X;
    let y = x;
    assert_eq!(ref_eq(x, y), true);
}

#[test]
fn ref_eq_false() {
    let x = &"".to_string();
    let y = &"".to_string();
    assert_eq!(ref_eq(x, y), false);
}

#[test]
fn ref_eq_false_by_ptr() {
    const X: &'static str = "xax";
    const Y: &'static str = "yay";
    let x = &X[1..2];
    let y = &Y[1..2];
    assert_eq!(ref_eq(x, y), false);
}

#[test]
fn ref_eq_false_by_len() {
    const X: &'static str = "xax";
    let x = &X[1..2];
    let y = &X[1..];
    assert_eq!(ref_eq(x, y), false);
}
