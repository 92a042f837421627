use std::borrow::Cow;

use sqlx_any::arguments::{AnyArguments, Arguments};
use sqlx_any::postgres::arguments::PgArguments;
use sqlx_any::postgres::type_info::PgType;
use sqlx_any::postgres::value::PgDatum;
use sqlx_any::types::{F32Bits, F64Bits};
use sqlx_any::value::AnyValueKind;

#[test]
fn add_keeps_bind_order() {
    let mut args = AnyArguments::default();
    assert_eq!(args.len(), 0);
    args.add(5i32);
    args.add("x");
    args.add(7i64);
    assert_eq!(args.len(), 3);
    assert!(matches!(args.get(0), Some(AnyValueKind::Integer(5))));
    assert!(matches!(args.get(1), Some(AnyValueKind::Text(t)) if t == "x"));
    assert!(matches!(args.get(2), Some(AnyValueKind::BigInt(7))));
    assert!(args.get(3).is_none());
}

#[test]
fn a_borrowed_text_stays_borrowed() {
    let text = String::from("caller's buffer");
    let bytes = vec![1u8, 2, 3];
    let mut args = AnyArguments::default();
    args.add(text.as_str());
    args.add(bytes.as_slice());
    args.add(String::from("owned"));
    args.add(vec![9u8]);
    assert!(matches!(args.get(0), Some(AnyValueKind::Text(Cow::Borrowed("caller's buffer")))));
    assert!(matches!(args.get(1), Some(AnyValueKind::Blob(Cow::Borrowed(b))) if *b == [1u8, 2, 3]));
    assert!(matches!(args.get(2), Some(AnyValueKind::Text(Cow::Owned(s))) if s == "owned"));
    assert!(matches!(args.get(3), Some(AnyValueKind::Blob(Cow::Owned(b))) if *b == vec![9u8]));
}

#[test]
fn none_is_bound_as_the_absent_value() {
    let mut args = AnyArguments::default();
    args.add(None::<i32>);
    args.add(Some(3i16));
    assert!(matches!(args.get(0), Some(AnyValueKind::Null)));
    assert!(matches!(args.get(1), Some(AnyValueKind::SmallInt(3))));
}

#[test]
fn reserve_binds_nothing() {
    let mut args = AnyArguments::default();
    args.add(1i16);
    args.reserve(16, 64);
    assert_eq!(args.len(), 1);
    assert!(matches!(args.get(0), Some(AnyValueKind::SmallInt(1))));

    let mut native = PgArguments::empty();
    native.reserve(16, 64);
    assert_eq!(native.len(), 0);
}

#[test]
fn convert_into_replays_every_kind_in_order() {
    let mut args = AnyArguments::default();
    args.add(None::<String>);
    args.add(-2i16);
    args.add(3i32);
    args.add(-4i64);
    args.add(F32Bits(1.5f32.to_bits()));
    args.add(F64Bits((-2.25f64).to_bits()));
    args.add("text");
    args.add(&[0xde_u8, 0xad][..]);

    let native: PgArguments = args.convert_into();
    assert_eq!(native.len(), 8);

    let a = native.get(0).unwrap();
    assert_eq!(a.type_info.0, PgType::Void);
    assert!(a.value.is_none());

    let a = native.get(1).unwrap();
    assert_eq!(a.type_info.0, PgType::Int2);
    assert!(matches!(a.value, Some(PgDatum::Int2(-2))));

    let a = native.get(2).unwrap();
    assert_eq!(a.type_info.0, PgType::Int4);
    assert!(matches!(a.value, Some(PgDatum::Int4(3))));

    let a = native.get(3).unwrap();
    assert_eq!(a.type_info.0, PgType::Int8);
    assert!(matches!(a.value, Some(PgDatum::Int8(-4))));

    let a = native.get(4).unwrap();
    assert_eq!(a.type_info.0, PgType::Float4);
    assert!(matches!(a.value, Some(PgDatum::Float4(bits)) if f32::from_bits(bits) == 1.5));

    let a = native.get(5).unwrap();
    assert_eq!(a.type_info.0, PgType::Float8);
    assert!(matches!(a.value, Some(PgDatum::Float8(bits)) if f64::from_bits(bits) == -2.25));

    let a = native.get(6).unwrap();
    assert_eq!(a.type_info.0, PgType::Text);
    assert!(matches!(&a.value, Some(PgDatum::Text(t)) if t == "text"));

    let a = native.get(7).unwrap();
    assert_eq!(a.type_info.0, PgType::Bytea);
    assert!(matches!(&a.value, Some(PgDatum::Bytea(b)) if *b == vec![0xde_u8, 0xad]));

    assert!(native.get(8).is_none());
}

#[test]
fn convert_into_of_an_empty_buffer_is_empty() {
    let args = AnyArguments::default();
    let native: PgArguments = args.convert_into();
    assert_eq!(native.len(), 0);
}

#[test]
fn from_any_is_convert_into() {
    let mut args = AnyArguments::default();
    args.add(5i32);
    args.add("x");
    let native = PgArguments::from_any(args);
    assert_eq!(native.len(), 2);
    assert!(matches!(native.get(0).unwrap().value, Some(PgDatum::Int4(5))));
    assert!(matches!(&native.get(1).unwrap().value, Some(PgDatum::Text(t)) if t == "x"));
}

#[test]
fn convert_into_the_canonical_collector_copies_the_values() {
    let mut args = AnyArguments::default();
    args.add(5i32);
    args.add("x");
    args.add(None::<i64>);
    let copy: AnyArguments<'static> = args.convert_into();
    assert_eq!(copy.len(), 3);
    assert!(matches!(copy.get(0), Some(AnyValueKind::Integer(5))));
    assert!(matches!(copy.get(1), Some(AnyValueKind::Text(Cow::Owned(s))) if s == "x"));
    assert!(matches!(copy.get(2), Some(AnyValueKind::Null)));
}

#[test]
fn into_owned_keeps_the_value() {
    let text = String::from("abc");
    let borrowed = AnyValueKind::Text(Cow::Borrowed(text.as_str()));
    let owned = borrowed.clone().into_owned();
    assert!(matches!(borrowed, AnyValueKind::Text(Cow::Borrowed("abc"))));
    assert!(matches!(owned, AnyValueKind::Text(Cow::Owned(s)) if s == "abc"));
    let blob = AnyValueKind::Blob(Cow::Borrowed(&[1u8, 2][..])).into_owned();
    assert!(matches!(blob, AnyValueKind::Blob(Cow::Owned(b)) if b == vec![1u8, 2]));
    assert!(matches!(AnyValueKind::Integer(4).into_owned(), AnyValueKind::Integer(4)));
}

#[test]
fn reserve_keeps_the_native_arguments() {
    let mut args = AnyArguments::default();
    args.add(5i32);
    args.add(None::<i64>);
    let mut native = PgArguments::from_any(args);
    native.reserve(8, 32);
    assert_eq!(native.len(), 2);
    assert_eq!(native.get(0).unwrap().type_info.0, PgType::Int4);
    assert!(matches!(native.get(0).unwrap().value, Some(PgDatum::Int4(5))));
    assert_eq!(native.get(1).unwrap().type_info.0, PgType::Void);
    assert!(native.get(1).unwrap().value.is_none());
}
