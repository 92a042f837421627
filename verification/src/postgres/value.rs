//! The values that a PostgreSQL row stores and that its arguments carry.

use vstd::prelude::*;
use crate::postgres::type_info::PgType;
use crate::value::{slice_to_vec, Value};

verus! {

/// A value of PostgreSQL that is not NULL.
///
/// `Float4` and `Float8` hold the IEEE 754 bit pattern of the number.
#[derive(Debug)]
pub enum PgDatum {
    Bool(bool),
    Int2(i16),
    Int4(i32),
    Int8(i64),
    Float4(u32),
    Float8(u64),
    Text(String),
    Bytea(Vec<u8>),
}

/// A [`PgDatum`] with its text and bytes taken as sequences.
pub enum PgDatumView {
    Bool(bool),
    Int2(i16),
    Int4(i32),
    Int8(i64),
    Float4(u32),
    Float8(u64),
    Text(Seq<char>),
    Bytea(Seq<u8>),
}

impl View for PgDatum {
    type V = PgDatumView;

    open spec fn view(&self) -> PgDatumView {
        match self {
            PgDatum::Bool(b) => PgDatumView::Bool(*b),
            PgDatum::Int2(i) => PgDatumView::Int2(*i),
            PgDatum::Int4(i) => PgDatumView::Int4(*i),
            PgDatum::Int8(i) => PgDatumView::Int8(*i),
            PgDatum::Float4(bits) => PgDatumView::Float4(*bits),
            PgDatum::Float8(bits) => PgDatumView::Float8(*bits),
            PgDatum::Text(text) => PgDatumView::Text(text@),
            PgDatum::Bytea(bytes) => PgDatumView::Bytea(bytes@),
        }
    }
}

impl Clone for PgDatum {
    fn clone(&self) -> (copy: Self)
        ensures
            copy@ == self@,
    {
        match self {
            PgDatum::Bool(b) => PgDatum::Bool(*b),
            PgDatum::Int2(i) => PgDatum::Int2(*i),
            PgDatum::Int4(i) => PgDatum::Int4(*i),
            PgDatum::Int8(i) => PgDatum::Int8(*i),
            PgDatum::Float4(bits) => PgDatum::Float4(*bits),
            PgDatum::Float8(bits) => PgDatum::Float8(*bits),
            PgDatum::Text(text) => PgDatum::Text(text.clone()),
            PgDatum::Bytea(bytes) => PgDatum::Bytea(slice_to_vec(bytes.as_slice())),
        }
    }
}

impl PgDatumView {
    /// The type of PostgreSQL that stores a value in this form.
    pub open spec fn pg_type(self) -> PgType {
        match self {
            PgDatumView::Bool(_) => PgType::Bool,
            PgDatumView::Int2(_) => PgType::Int2,
            PgDatumView::Int4(_) => PgType::Int4,
            PgDatumView::Int8(_) => PgType::Int8,
            PgDatumView::Float4(_) => PgType::Float4,
            PgDatumView::Float8(_) => PgType::Float8,
            PgDatumView::Text(_) => PgType::Text,
            PgDatumView::Bytea(_) => PgType::Bytea,
        }
    }
}

/// The native form of a canonical value: none for the absent value.
pub open spec fn native_of(value: Value) -> Option<PgDatumView> {
    match value {
        Value::Null => None,
        Value::SmallInt(i) => Some(PgDatumView::Int2(i)),
        Value::Integer(i) => Some(PgDatumView::Int4(i)),
        Value::BigInt(i) => Some(PgDatumView::Int8(i)),
        Value::Real(bits) => Some(PgDatumView::Float4(bits)),
        Value::Double(bits) => Some(PgDatumView::Float8(bits)),
        Value::Text(text) => Some(PgDatumView::Text(text)),
        Value::Blob(bytes) => Some(PgDatumView::Bytea(bytes)),
    }
}

/// The canonical value that a stored value reads as, taken by itself: the
/// absent value for NULL, and none for a value without a canonical counterpart.
pub open spec fn canonical_of(stored: Option<PgDatumView>) -> Option<Value> {
    match stored {
        None => Some(Value::Null),
        Some(PgDatumView::Bool(_)) => None,
        Some(PgDatumView::Int2(i)) => Some(Value::SmallInt(i)),
        Some(PgDatumView::Int4(i)) => Some(Value::Integer(i)),
        Some(PgDatumView::Int8(i)) => Some(Value::BigInt(i)),
        Some(PgDatumView::Float4(bits)) => Some(Value::Real(bits)),
        Some(PgDatumView::Float8(bits)) => Some(Value::Double(bits)),
        Some(PgDatumView::Text(text)) => Some(Value::Text(text)),
        Some(PgDatumView::Bytea(bytes)) => Some(Value::Blob(bytes)),
    }
}

/// The native type that a canonical value is bound as: `VOID` for the absent
/// value.
pub open spec fn native_type_of(value: Value) -> PgType {
    match native_of(value) {
        None => PgType::Void,
        Some(datum) => datum.pg_type(),
    }
}

} // verus!
