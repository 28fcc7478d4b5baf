use aex::types::contains::Contains;
use aex::types::float::FloatSpec;
use aex::types::form::{bits_to_bytes, TypeForm, TypeInfo};
use aex::types::int_spec::{self, IntSpec};

const U8: IntSpec = IntSpec { store_width: 16, value_width: 8, value_scale: 3, signed: false };
const I8: IntSpec = IntSpec { store_width: 16, value_width: 8, value_scale: 3, signed: true };

#[test]
fn min_value() {
    assert_eq!(U8.min_value(), 0);
    assert_eq!(I8.min_value(), -128);
}

#[test]
fn max_value() {
    assert_eq!(U8.max_value(), 255);
    assert_eq!(I8.max_value(), 127);
}

#[test]
fn bit() {
    assert_eq!(int_spec::bit(0), 1 << 0);
    assert_eq!(int_spec::bit(1), 1 << 1);
    assert_eq!(int_spec::bit(7), 1 << 7);
    assert_eq!(int_spec::bit(64), 1i128 << 64);
}

#[test]
fn encode_overflow() {
    assert_eq!(U8.encode(&0x100), Err(()));
    assert_eq!(I8.encode(&-129), Err(()));
    assert_eq!(I8.encode(&128), Err(()));
}

#[test]
fn encode_unsigned() {
    assert_eq!(U8.encode(&0x93), Ok(0x498));
}

#[test]
fn encode_signed() {
    assert_eq!(I8.encode(&-7), Ok(0x7C8));
}

#[test]
fn encode_wide_and_scaled_out() {
    let i64s = IntSpec { store_width: 64, value_width: 64, value_scale: 0, signed: true };
    assert_eq!(i64s.encode(&-1), Ok(u64::MAX));
    let shifted = IntSpec { store_width: 64, value_width: 8, value_scale: 60, signed: false };
    assert_eq!(shifted.encode(&0xFF), Ok(0xF000_0000_0000_0000));
    let gone = IntSpec { store_width: 64, value_width: 8, value_scale: 64, signed: false };
    assert_eq!(gone.encode(&0xFF), Ok(0));
}

#[test]
fn int_contains() {
    assert_eq!(U8.contains(&255), Some(true));
    assert_eq!(U8.contains(&256), Some(false));
    assert_eq!(I8.contains(&-128), Some(true));
    assert_eq!(Some(I8).contains(&-129), Some(false));
    assert_eq!(None::<IntSpec>.contains(&0), None);
}

#[test]
fn form_queries() {
    let f = FloatSpec { value_width: 24, store_width: 32 };
    assert!(TypeForm::Inty(None).is_scalar());
    assert!(TypeForm::Floaty(Some(f)).is_scalar());
    assert!(!TypeForm::Opaque(None).is_scalar());
    assert_eq!(TypeForm::Inty(Some(I8)).value_width(), Some(8));
    assert_eq!(TypeForm::Floaty(Some(f)).store_width(), Some(32));
    assert_eq!(TypeForm::Opaque(Some(3)).store_width(), None);
    assert_eq!(TypeForm::Inty(Some(U8)).size_bytes(), 2);
    assert_eq!(TypeForm::Floaty(Some(f)).size_bytes(), 4);
    assert_eq!(TypeForm::Opaque(Some(12)).size_bytes(), 12);
    assert_eq!(TypeForm::Inty(None).size_bytes(), 0);
}

#[test]
fn form_contains() {
    assert_eq!(TypeForm::Inty(Some(U8)).contains(&5), Some(true));
    assert_eq!(TypeForm::Inty(None).contains(&5), None);
    assert_eq!(TypeForm::Floaty(None).contains(&5), None);
    assert_eq!(TypeForm::Opaque(None).contains(&5), Some(false));
}

#[test]
fn bits_to_bytes_rounds_to_powers_of_two() {
    assert_eq!(bits_to_bytes(0), 0);
    assert_eq!(bits_to_bytes(4), 0);
    assert_eq!(bits_to_bytes(5), 1);
    assert_eq!(bits_to_bytes(8), 1);
    assert_eq!(bits_to_bytes(9), 2);
    assert_eq!(bits_to_bytes(24), 4);
    assert_eq!(bits_to_bytes(64), 8);
    assert_eq!(bits_to_bytes(255), 32);
}

#[test]
fn type_info_size() {
    let info = TypeInfo { form: TypeForm::Inty(Some(U8)), step: 0, count: 10 };
    assert_eq!(info.size_bytes(), 20);
}
