//! The Rust types that canonical values are bound from and read as.
//!
//! A stored value is read as a wider type where nothing is lost by it: a
//! `SmallInt` as `i32` or `i64`, an `Integer` as `i64`. No other kind is read
//! as another. The absent value reads as every type: as `None` where the type
//! is an `Option`, and else as the type's empty value (zero, the empty text,
//! the empty blob).

use std::borrow::Cow;
use vstd::prelude::*;
use crate::arguments::AnyArgumentBuffer;
use crate::error::DecodeError;
use crate::type_info::{AnyTypeInfo, AnyTypeInfoKind};
use crate::value::{slice_to_vec, AnyValueKind, Value};

verus! {

/// A single-precision number, held as its IEEE 754 bit pattern.
#[derive(Clone, Copy, Debug, PartialEq, Eq, Structural)]
pub struct F32Bits(pub u32);

/// A double-precision number, held as its IEEE 754 bit pattern.
#[derive(Clone, Copy, Debug, PartialEq, Eq, Structural)]
pub struct F64Bits(pub u64);

/// A Rust type with a canonical counterpart.
pub trait Type: Sized {
    /// The canonical value that `self` stands for.
    spec fn canonical(&self) -> Value;

    /// The kind that a value of this type is bound as.
    spec fn kind() -> AnyTypeInfoKind;

    /// Whether a stored value of kind `stored` can be read as this type.
    spec fn accepts(stored: AnyTypeInfoKind) -> bool;

    /// The canonical type of this Rust type.
    fn type_info() -> (ty: AnyTypeInfo)
        ensures
            ty.kind == Self::kind(),
    ;

    /// Whether a value of type `ty` can be read as this Rust type.
    fn compatible(ty: &AnyTypeInfo) -> (ok: bool)
        ensures
            ok == Self::accepts(ty.kind),
    ;
}

/// A type whose values can be bound as arguments.
pub trait Encode<'q>: Type {
    /// Appends the canonical form of `self` to `buf`.
    fn encode(self, buf: &mut AnyArgumentBuffer<'q>)
        ensures
            final(buf)@ == old(buf)@.push(self.canonical()),
    ;
}

/// A type that stored values can be read as.
pub trait Decode: Type {
    /// What reading `value` as this type gives: the canonical form of the
    /// result, or the failure.
    spec fn decoded(value: Value) -> Result<Value, DecodeError>;

    /// Reads `value` as this type.
    fn decode(value: &AnyValueKind<'_>) -> (result: Result<Self, DecodeError>)
        ensures
            match result {
                Ok(read) => Self::decoded(value@) == Ok::<Value, DecodeError>(read.canonical()),
                Err(e) => Self::decoded(value@) == Err::<Value, DecodeError>(e),
            },
    ;

    /// The absent value reads as every type.
    proof fn lemma_decodes_null()
        ensures
            Self::decoded(Value::Null) is Ok,
    ;

    /// What was bound from a value of this type is of a kind that the type
    /// accepts, unless it is absent, and reads back as that value.
    proof fn lemma_decodes_own(x: Self)
        ensures
            x.canonical() is Null || Self::accepts(x.canonical().kind()),
            Self::decoded(x.canonical()) == Ok::<Value, DecodeError>(x.canonical()),
    ;
}

/// What reading a value of kind `stored` gives where `requested` wanted another.
pub open spec fn mismatch(requested: AnyTypeInfoKind, stored: Value) -> Result<Value, DecodeError> {
    Err(DecodeError::MismatchedTypes { requested, stored: stored.kind() })
}

impl Type for i16 {
    open spec fn canonical(&self) -> Value {
        Value::SmallInt(*self)
    }

    open spec fn kind() -> AnyTypeInfoKind {
        AnyTypeInfoKind::SmallInt
    }

    open spec fn accepts(stored: AnyTypeInfoKind) -> bool {
        stored == AnyTypeInfoKind::SmallInt
    }

    fn type_info() -> (ty: AnyTypeInfo) {
        AnyTypeInfo { kind: AnyTypeInfoKind::SmallInt }
    }

    fn compatible(ty: &AnyTypeInfo) -> (ok: bool) {
        match ty.kind {
            AnyTypeInfoKind::SmallInt => true,
            _ => false,
        }
    }
}

impl<'q> Encode<'q> for i16 {
    fn encode(self, buf: &mut AnyArgumentBuffer<'q>) {
        buf.push(AnyValueKind::SmallInt(self));
    }
}

impl Decode for i16 {
    open spec fn decoded(value: Value) -> Result<Value, DecodeError> {
        match value {
            Value::Null => Ok(Value::SmallInt(0)),
            Value::SmallInt(i) => Ok(Value::SmallInt(i)),
            _ => mismatch(AnyTypeInfoKind::SmallInt, value),
        }
    }

    fn decode(value: &AnyValueKind<'_>) -> (result: Result<Self, DecodeError>) {
        match value {
            AnyValueKind::Null => Ok(0),
            AnyValueKind::SmallInt(i) => Ok(*i),
            _ => Err(
                DecodeError::MismatchedTypes {
                    requested: AnyTypeInfoKind::SmallInt,
                    stored: value.type_info().kind,
                },
            ),
        }
    }

    proof fn lemma_decodes_null() {
    }

    proof fn lemma_decodes_own(x: Self) {
    }
}

impl Type for i32 {
    open spec fn canonical(&self) -> Value {
        Value::Integer(*self)
    }

    open spec fn kind() -> AnyTypeInfoKind {
        AnyTypeInfoKind::Integer
    }

    open spec fn accepts(stored: AnyTypeInfoKind) -> bool {
        stored == AnyTypeInfoKind::SmallInt || stored == AnyTypeInfoKind::Integer
    }

    fn type_info() -> (ty: AnyTypeInfo) {
        AnyTypeInfo { kind: AnyTypeInfoKind::Integer }
    }

    fn compatible(ty: &AnyTypeInfo) -> (ok: bool) {
        match ty.kind {
            AnyTypeInfoKind::SmallInt => true,
            AnyTypeInfoKind::Integer => true,
            _ => false,
        }
    }
}

impl<'q> Encode<'q> for i32 {
    fn encode(self, buf: &mut AnyArgumentBuffer<'q>) {
        buf.push(AnyValueKind::Integer(self));
    }
}

impl Decode for i32 {
    open spec fn decoded(value: Value) -> Result<Value, DecodeError> {
        match value {
            Value::Null => Ok(Value::Integer(0)),
            Value::SmallInt(i) => Ok(Value::Integer(i as i32)),
            Value::Integer(i) => Ok(Value::Integer(i)),
            _ => mismatch(AnyTypeInfoKind::Integer, value),
        }
    }

    fn decode(value: &AnyValueKind<'_>) -> (result: Result<Self, DecodeError>) {
        match value {
            AnyValueKind::Null => Ok(0),
            AnyValueKind::SmallInt(i) => Ok(*i as i32),
            AnyValueKind::Integer(i) => Ok(*i),
            _ => Err(
                DecodeError::MismatchedTypes {
                    requested: AnyTypeInfoKind::Integer,
                    stored: value.type_info().kind,
                },
            ),
        }
    }

    proof fn lemma_decodes_null() {
    }

    proof fn lemma_decodes_own(x: Self) {
    }
}

impl Type for i64 {
    open spec fn canonical(&self) -> Value {
        Value::BigInt(*self)
    }

    open spec fn kind() -> AnyTypeInfoKind {
        AnyTypeInfoKind::BigInt
    }

    open spec fn accepts(stored: AnyTypeInfoKind) -> bool {
        stored == AnyTypeInfoKind::SmallInt || stored == AnyTypeInfoKind::Integer || stored == AnyTypeInfoKind::BigInt
    }

    fn type_info() -> (ty: AnyTypeInfo) {
        AnyTypeInfo { kind: AnyTypeInfoKind::BigInt }
    }

    fn compatible(ty: &AnyTypeInfo) -> (ok: bool) {
        match ty.kind {
            AnyTypeInfoKind::SmallInt => true,
            AnyTypeInfoKind::Integer => true,
            AnyTypeInfoKind::BigInt => true,
            _ => false,
        }
    }
}

impl<'q> Encode<'q> for i64 {
    fn encode(self, buf: &mut AnyArgumentBuffer<'q>) {
        buf.push(AnyValueKind::BigInt(self));
    }
}

impl Decode for i64 {
    open spec fn decoded(value: Value) -> Result<Value, DecodeError> {
        match value {
            Value::Null => Ok(Value::BigInt(0)),
            Value::SmallInt(i) => Ok(Value::BigInt(i as i64)),
            Value::Integer(i) => Ok(Value::BigInt(i as i64)),
            Value::BigInt(i) => Ok(Value::BigInt(i)),
            _ => mismatch(AnyTypeInfoKind::BigInt, value),
        }
    }

    fn decode(value: &AnyValueKind<'_>) -> (result: Result<Self, DecodeError>) {
        match value {
            AnyValueKind::Null => Ok(0),
            AnyValueKind::SmallInt(i) => Ok(*i as i64),
            AnyValueKind::Integer(i) => Ok(*i as i64),
            AnyValueKind::BigInt(i) => Ok(*i),
            _ => Err(
                DecodeError::MismatchedTypes {
                    requested: AnyTypeInfoKind::BigInt,
                    stored: value.type_info().kind,
                },
            ),
        }
    }

    proof fn lemma_decodes_null() {
    }

    proof fn lemma_decodes_own(x: Self) {
    }
}

impl Type for F32Bits {
    open spec fn canonical(&self) -> Value {
        Value::Real(self.0)
    }

    open spec fn kind() -> AnyTypeInfoKind {
        AnyTypeInfoKind::Real
    }

    open spec fn accepts(stored: AnyTypeInfoKind) -> bool {
        stored == AnyTypeInfoKind::Real
    }

    fn type_info() -> (ty: AnyTypeInfo) {
        AnyTypeInfo { kind: AnyTypeInfoKind::Real }
    }

    fn compatible(ty: &AnyTypeInfo) -> (ok: bool) {
        match ty.kind {
            AnyTypeInfoKind::Real => true,
            _ => false,
        }
    }
}

impl<'q> Encode<'q> for F32Bits {
    fn encode(self, buf: &mut AnyArgumentBuffer<'q>) {
        buf.push(AnyValueKind::Real(self.0));
    }
}

impl Decode for F32Bits {
    open spec fn decoded(value: Value) -> Result<Value, DecodeError> {
        match value {
            Value::Null => Ok(Value::Real(0)),
            Value::Real(bits) => Ok(Value::Real(bits)),
            _ => mismatch(AnyTypeInfoKind::Real, value),
        }
    }

    fn decode(value: &AnyValueKind<'_>) -> (result: Result<Self, DecodeError>) {
        match value {
            AnyValueKind::Null => Ok(F32Bits(0)),
            AnyValueKind::Real(bits) => Ok(F32Bits(*bits)),
            _ => Err(
                DecodeError::MismatchedTypes {
                    requested: AnyTypeInfoKind::Real,
                    stored: value.type_info().kind,
                },
            ),
        }
    }

    proof fn lemma_decodes_null() {
    }

    proof fn lemma_decodes_own(x: Self) {
    }
}

impl Type for F64Bits {
    open spec fn canonical(&self) -> Value {
        Value::Double(self.0)
    }

    open spec fn kind() -> AnyTypeInfoKind {
        AnyTypeInfoKind::Double
    }

    open spec fn accepts(stored: AnyTypeInfoKind) -> bool {
        stored == AnyTypeInfoKind::Double
    }

    fn type_info() -> (ty: AnyTypeInfo) {
        AnyTypeInfo { kind: AnyTypeInfoKind::Double }
    }

    fn compatible(ty: &AnyTypeInfo) -> (ok: bool) {
        match ty.kind {
            AnyTypeInfoKind::Double => true,
            _ => false,
        }
    }
}

impl<'q> Encode<'q> for F64Bits {
    fn encode(self, buf: &mut AnyArgumentBuffer<'q>) {
        buf.push(AnyValueKind::Double(self.0));
    }
}

impl Decode for F64Bits {
    open spec fn decoded(value: Value) -> Result<Value, DecodeError> {
        match value {
            Value::Null => Ok(Value::Double(0)),
            Value::Double(bits) => Ok(Value::Double(bits)),
            _ => mismatch(AnyTypeInfoKind::Double, value),
        }
    }

    fn decode(value: &AnyValueKind<'_>) -> (result: Result<Self, DecodeError>) {
        match value {
            AnyValueKind::Null => Ok(F64Bits(0)),
            AnyValueKind::Double(bits) => Ok(F64Bits(*bits)),
            _ => Err(
                DecodeError::MismatchedTypes {
                    requested: AnyTypeInfoKind::Double,
                    stored: value.type_info().kind,
                },
            ),
        }
    }

    proof fn lemma_decodes_null() {
    }

    proof fn lemma_decodes_own(x: Self) {
    }
}

impl<'q> Type for &'q str {
    open spec fn canonical(&self) -> Value {
        Value::Text(self@)
    }

    open spec fn kind() -> AnyTypeInfoKind {
        AnyTypeInfoKind::Text
    }

    open spec fn accepts(stored: AnyTypeInfoKind) -> bool {
        stored == AnyTypeInfoKind::Text
    }

    fn type_info() -> (ty: AnyTypeInfo) {
        AnyTypeInfo { kind: AnyTypeInfoKind::Text }
    }

    fn compatible(ty: &AnyTypeInfo) -> (ok: bool) {
        match ty.kind {
            AnyTypeInfoKind::Text => true,
            _ => false,
        }
    }
}

impl<'q> Encode<'q> for &'q str {
    /// Binds the text as it lies in the caller's buffer.
    fn encode(self, buf: &mut AnyArgumentBuffer<'q>) {
        buf.push(AnyValueKind::Text(Cow::Borrowed(self)));
    }
}

impl Type for String {
    open spec fn canonical(&self) -> Value {
        Value::Text(self@)
    }

    open spec fn kind() -> AnyTypeInfoKind {
        AnyTypeInfoKind::Text
    }

    open spec fn accepts(stored: AnyTypeInfoKind) -> bool {
        stored == AnyTypeInfoKind::Text
    }

    fn type_info() -> (ty: AnyTypeInfo) {
        AnyTypeInfo { kind: AnyTypeInfoKind::Text }
    }

    fn compatible(ty: &AnyTypeInfo) -> (ok: bool) {
        match ty.kind {
            AnyTypeInfoKind::Text => true,
            _ => false,
        }
    }
}

impl<'q> Encode<'q> for String {
    fn encode(self, buf: &mut AnyArgumentBuffer<'q>) {
        buf.push(AnyValueKind::Text(Cow::Owned(self)));
    }
}

impl Decode for String {
    open spec fn decoded(value: Value) -> Result<Value, DecodeError> {
        match value {
            Value::Null => Ok(Value::Text(Seq::empty())),
            Value::Text(text) => Ok(Value::Text(text)),
            _ => mismatch(AnyTypeInfoKind::Text, value),
        }
    }

    fn decode(value: &AnyValueKind<'_>) -> (result: Result<Self, DecodeError>) {
        match value {
            AnyValueKind::Null => Ok(String::new()),
            AnyValueKind::Text(text) => Ok(
                match text {
                    Cow::Borrowed(s) => (*s).to_owned(),
                    Cow::Owned(s) => s.clone(),
                },
            ),
            _ => Err(
                DecodeError::MismatchedTypes {
                    requested: AnyTypeInfoKind::Text,
                    stored: value.type_info().kind,
                },
            ),
        }
    }

    proof fn lemma_decodes_null() {
    }

    proof fn lemma_decodes_own(x: Self) {
    }
}

impl<'q> Type for &'q [u8] {
    open spec fn canonical(&self) -> Value {
        Value::Blob(self@)
    }

    open spec fn kind() -> AnyTypeInfoKind {
        AnyTypeInfoKind::Blob
    }

    open spec fn accepts(stored: AnyTypeInfoKind) -> bool {
        stored == AnyTypeInfoKind::Blob
    }

    fn type_info() -> (ty: AnyTypeInfo) {
        AnyTypeInfo { kind: AnyTypeInfoKind::Blob }
    }

    fn compatible(ty: &AnyTypeInfo) -> (ok: bool) {
        match ty.kind {
            AnyTypeInfoKind::Blob => true,
            _ => false,
        }
    }
}

impl<'q> Encode<'q> for &'q [u8] {
    /// Binds the bytes as they lie in the caller's buffer.
    fn encode(self, buf: &mut AnyArgumentBuffer<'q>) {
        buf.push(AnyValueKind::Blob(Cow::Borrowed(self)));
    }
}

impl Type for Vec<u8> {
    open spec fn canonical(&self) -> Value {
        Value::Blob(self@)
    }

    open spec fn kind() -> AnyTypeInfoKind {
        AnyTypeInfoKind::Blob
    }

    open spec fn accepts(stored: AnyTypeInfoKind) -> bool {
        stored == AnyTypeInfoKind::Blob
    }

    fn type_info() -> (ty: AnyTypeInfo) {
        AnyTypeInfo { kind: AnyTypeInfoKind::Blob }
    }

    fn compatible(ty: &AnyTypeInfo) -> (ok: bool) {
        match ty.kind {
            AnyTypeInfoKind::Blob => true,
            _ => false,
        }
    }
}

impl<'q> Encode<'q> for Vec<u8> {
    fn encode(self, buf: &mut AnyArgumentBuffer<'q>) {
        buf.push(AnyValueKind::Blob(Cow::Owned(self)));
    }
}

impl Decode for Vec<u8> {
    open spec fn decoded(value: Value) -> Result<Value, DecodeError> {
        match value {
            Value::Null => Ok(Value::Blob(Seq::empty())),
            Value::Blob(bytes) => Ok(Value::Blob(bytes)),
            _ => mismatch(AnyTypeInfoKind::Blob, value),
        }
    }

    fn decode(value: &AnyValueKind<'_>) -> (result: Result<Self, DecodeError>) {
        match value {
            AnyValueKind::Null => Ok(Vec::new()),
            AnyValueKind::Blob(bytes) => Ok(
                match bytes {
                    Cow::Borrowed(s) => slice_to_vec(*s),
                    Cow::Owned(v) => slice_to_vec(v.as_slice()),
                },
            ),
            _ => Err(
                DecodeError::MismatchedTypes {
                    requested: AnyTypeInfoKind::Blob,
                    stored: value.type_info().kind,
                },
            ),
        }
    }

    proof fn lemma_decodes_null() {
    }

    proof fn lemma_decodes_own(x: Self) {
    }
}

impl<T: Type> Type for Option<T> {
    open spec fn canonical(&self) -> Value {
        match self {
            None => Value::Null,
            Some(x) => x.canonical(),
        }
    }

    open spec fn kind() -> AnyTypeInfoKind {
        T::kind()
    }

    open spec fn accepts(stored: AnyTypeInfoKind) -> bool {
        T::accepts(stored)
    }

    fn type_info() -> (ty: AnyTypeInfo) {
        T::type_info()
    }

    fn compatible(ty: &AnyTypeInfo) -> (ok: bool) {
        T::compatible(ty)
    }
}

impl<'q, T: Encode<'q>> Encode<'q> for Option<T> {
    /// Binds `None` as the absent value.
    fn encode(self, buf: &mut AnyArgumentBuffer<'q>) {
        match self {
            None => buf.push(AnyValueKind::Null),
            Some(x) => x.encode(buf),
        }
    }
}

impl<T: Decode> Decode for Option<T> {
    open spec fn decoded(value: Value) -> Result<Value, DecodeError> {
        match value {
            Value::Null => Ok(Value::Null),
            _ => T::decoded(value),
        }
    }

    /// Reads the absent value as `None`.
    fn decode(value: &AnyValueKind<'_>) -> (result: Result<Self, DecodeError>) {
        if value.is_null() {
            Ok(None)
        } else {
            match T::decode(value) {
                Ok(x) => Ok(Some(x)),
                Err(e) => Err(e),
            }
        }
    }

    proof fn lemma_decodes_null() {
    }

    proof fn lemma_decodes_own(x: Self) {
        match x {
            None => {},
            Some(y) => {
                T::lemma_decodes_own(y);
            },
        }
    }
}

} // verus!
