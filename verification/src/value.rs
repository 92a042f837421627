//! The canonical value model.

use std::borrow::Cow;
use vstd::prelude::*;
use crate::type_info::{AnyTypeInfo, AnyTypeInfoKind};

verus! {

/// What a canonical value is, apart from who owns its bytes.
///
/// `Real` and `Double` hold the IEEE 754 bit pattern of the number.
pub enum Value {
    Null,
    SmallInt(i16),
    Integer(i32),
    BigInt(i64),
    Real(u32),
    Double(u64),
    Text(Seq<char>),
    Blob(Seq<u8>),
}

impl Value {
    /// The kind of this value.
    pub open spec fn kind(self) -> AnyTypeInfoKind {
        match self {
            Value::Null => AnyTypeInfoKind::Null,
            Value::SmallInt(_) => AnyTypeInfoKind::SmallInt,
            Value::Integer(_) => AnyTypeInfoKind::Integer,
            Value::BigInt(_) => AnyTypeInfoKind::BigInt,
            Value::Real(_) => AnyTypeInfoKind::Real,
            Value::Double(_) => AnyTypeInfoKind::Double,
            Value::Text(_) => AnyTypeInfoKind::Text,
            Value::Blob(_) => AnyTypeInfoKind::Blob,
        }
    }
}

/// A canonical value: exactly one of the eight kinds.
///
/// A text or a blob is either borrowed from the caller's buffer or owned.
/// `Real` and `Double` hold the IEEE 754 bit pattern of the number.
#[derive(Debug)]
pub enum AnyValueKind<'a> {
    Null,
    SmallInt(i16),
    Integer(i32),
    BigInt(i64),
    Real(u32),
    Double(u64),
    Text(Cow<'a, str>),
    Blob(Cow<'a, [u8]>),
}

impl<'a> View for AnyValueKind<'a> {
    type V = Value;

    open spec fn view(&self) -> Value {
        match self {
            AnyValueKind::Null => Value::Null,
            AnyValueKind::SmallInt(i) => Value::SmallInt(*i),
            AnyValueKind::Integer(i) => Value::Integer(*i),
            AnyValueKind::BigInt(i) => Value::BigInt(*i),
            AnyValueKind::Real(r) => Value::Real(*r),
            AnyValueKind::Double(d) => Value::Double(*d),
            AnyValueKind::Text(t) => Value::Text(t@),
            AnyValueKind::Blob(b) => Value::Blob(b@),
        }
    }
}

impl<'a> Clone for AnyValueKind<'a> {
    /// The same value; a borrowed payload stays borrowed.
    fn clone(&self) -> (copy: Self)
        ensures
            copy@ == self@,
            copy.is_owned() == self.is_owned(),
    {
        match self {
            AnyValueKind::Null => AnyValueKind::Null,
            AnyValueKind::SmallInt(i) => AnyValueKind::SmallInt(*i),
            AnyValueKind::Integer(i) => AnyValueKind::Integer(*i),
            AnyValueKind::BigInt(i) => AnyValueKind::BigInt(*i),
            AnyValueKind::Real(r) => AnyValueKind::Real(*r),
            AnyValueKind::Double(d) => AnyValueKind::Double(*d),
            AnyValueKind::Text(t) => AnyValueKind::Text(
                match t {
                    Cow::Borrowed(s) => Cow::Borrowed(*s),
                    Cow::Owned(s) => Cow::Owned(s.clone()),
                },
            ),
            AnyValueKind::Blob(b) => AnyValueKind::Blob(
                match b {
                    Cow::Borrowed(s) => Cow::Borrowed(*s),
                    Cow::Owned(s) => Cow::Owned(slice_to_vec(s.as_slice())),
                },
            ),
        }
    }
}

impl<'a> AnyValueKind<'a> {
    /// Whether the payload, if there is one, is owned by this value.
    pub open spec fn is_owned(&self) -> bool {
        match self {
            AnyValueKind::Text(t) => t is Owned,
            AnyValueKind::Blob(b) => b is Owned,
            _ => true,
        }
    }

    /// The type of this value.
    pub fn type_info(&self) -> (ty: AnyTypeInfo)
        ensures
            ty.kind == self@.kind(),
    {
        AnyTypeInfo {
            kind: match self {
                AnyValueKind::Null => AnyTypeInfoKind::Null,
                AnyValueKind::SmallInt(_) => AnyTypeInfoKind::SmallInt,
                AnyValueKind::Integer(_) => AnyTypeInfoKind::Integer,
                AnyValueKind::BigInt(_) => AnyTypeInfoKind::BigInt,
                AnyValueKind::Real(_) => AnyTypeInfoKind::Real,
                AnyValueKind::Double(_) => AnyTypeInfoKind::Double,
                AnyValueKind::Text(_) => AnyTypeInfoKind::Text,
                AnyValueKind::Blob(_) => AnyTypeInfoKind::Blob,
            },
        }
    }

    /// Whether this is the absent value.
    pub fn is_null(&self) -> (null: bool)
        ensures
            null == (self@ is Null),
    {
        match self {
            AnyValueKind::Null => true,
            _ => false,
        }
    }

    /// The same value with its payload copied out of the caller's buffer.
    pub fn into_owned(self) -> (owned: AnyValueKind<'static>)
        ensures
            owned@ == self@,
            owned.is_owned(),
    {
        match self {
            AnyValueKind::Null => AnyValueKind::Null,
            AnyValueKind::SmallInt(i) => AnyValueKind::SmallInt(i),
            AnyValueKind::Integer(i) => AnyValueKind::Integer(i),
            AnyValueKind::BigInt(i) => AnyValueKind::BigInt(i),
            AnyValueKind::Real(r) => AnyValueKind::Real(r),
            AnyValueKind::Double(d) => AnyValueKind::Double(d),
            AnyValueKind::Text(t) => AnyValueKind::Text(
                match t {
                    Cow::Borrowed(s) => Cow::Owned(s.to_owned()),
                    Cow::Owned(s) => Cow::Owned(s),
                },
            ),
            AnyValueKind::Blob(b) => AnyValueKind::Blob(
                match b {
                    Cow::Borrowed(s) => Cow::Owned(slice_to_vec(s)),
                    Cow::Owned(s) => Cow::Owned(s),
                },
            ),
        }
    }
}

/// Copies a byte slice into a vector.
pub fn slice_to_vec(bytes: &[u8]) -> (copy: Vec<u8>)
    ensures
        copy@ == bytes@,
{
    let mut copy: Vec<u8> = Vec::new();
    let mut i: usize = 0;
    while i < bytes.len()
        invariant
            i <= bytes.len(),
            copy@ == bytes@.subrange(0, i as int),
        decreases bytes.len() - i,
    {
        copy.push(bytes[i]);
        i = i + 1;
    }
    copy
}

/// A canonical value that a row holds.
#[derive(Debug)]
pub struct AnyValue {
    pub kind: AnyValueKind<'static>,
}

impl View for AnyValue {
    type V = Value;

    open spec fn view(&self) -> Value {
        self.kind@
    }
}

impl Clone for AnyValue {
    fn clone(&self) -> (copy: Self)
        ensures
            copy@ == self@,
            copy.kind.is_owned() == self.kind.is_owned(),
    {
        AnyValue { kind: self.kind.clone() }
    }
}

impl AnyValue {
    /// The type of this value.
    pub fn type_info(&self) -> (ty: AnyTypeInfo)
        ensures
            ty.kind == self@.kind(),
    {
        self.kind.type_info()
    }

    /// Whether this is the absent value.
    pub fn is_null(&self) -> (null: bool)
        ensures
            null == (self@ is Null),
    {
        self.kind.is_null()
    }
}

/// The views of the items of `items`, in their order.
pub open spec fn views_of<T: View>(items: Seq<T>) -> Seq<T::V> {
    Seq::new(items.len(), |i: int| items[i]@)
}

} // verus!
