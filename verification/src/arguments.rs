//! The buffer of bound arguments, and its replay into a backend's collector.

use std::borrow::Cow;
use vstd::prelude::*;
use crate::types::Encode;
use crate::value::{slice_to_vec, AnyValueKind, Value};

verus! {

/// Canonical values in bind order.
pub struct AnyArgumentBuffer<'q>(pub(crate) Vec<AnyValueKind<'q>>);

impl<'q> View for AnyArgumentBuffer<'q> {
    type V = Seq<Value>;

    closed spec fn view(&self) -> Seq<Value> {
        Seq::new(self.0.len() as nat, |i: int| self.0[i]@)
    }
}

impl<'q> AnyArgumentBuffer<'q> {
    /// Appends one canonical value.
    pub fn push(&mut self, value: AnyValueKind<'q>)
        ensures
            final(self)@ == old(self)@.push(value@),
    {
        self.0.push(value);
    }
}

/// A backend's collector of native arguments.
///
/// A backend takes each of the eight kinds of canonical value, the absent
/// value among them; `bound` is what it has taken so far.
pub trait Arguments: Sized {
    /// The values bound so far, in bind order, read back in canonical terms.
    spec fn bound(&self) -> Seq<Value>;

    /// A collector that holds nothing.
    fn empty() -> (out: Self)
        ensures
            out.bound() == Seq::<Value>::empty(),
    ;

    /// A hint that `additional` values of `size` bytes in all will follow.
    fn reserve(&mut self, additional: usize, size: usize)
        ensures
            final(self).bound() == old(self).bound(),
    ;

    /// Binds the backend's typed form of an absent value.
    fn add_null(&mut self)
        ensures
            final(self).bound() == old(self).bound().push(Value::Null),
    ;

    fn add_small_int(&mut self, value: i16)
        ensures
            final(self).bound() == old(self).bound().push(Value::SmallInt(value)),
    ;

    fn add_integer(&mut self, value: i32)
        ensures
            final(self).bound() == old(self).bound().push(Value::Integer(value)),
    ;

    fn add_big_int(&mut self, value: i64)
        ensures
            final(self).bound() == old(self).bound().push(Value::BigInt(value)),
    ;

    /// Binds the single-precision number with the bit pattern `bits`.
    fn add_real(&mut self, bits: u32)
        ensures
            final(self).bound() == old(self).bound().push(Value::Real(bits)),
    ;

    /// Binds the double-precision number with the bit pattern `bits`.
    fn add_double(&mut self, bits: u64)
        ensures
            final(self).bound() == old(self).bound().push(Value::Double(bits)),
    ;

    fn add_text(&mut self, value: &str)
        ensures
            final(self).bound() == old(self).bound().push(Value::Text(value@)),
    ;

    fn add_blob(&mut self, value: &[u8])
        ensures
            final(self).bound() == old(self).bound().push(Value::Blob(value@)),
    ;
}

/// The arguments of one query, in canonical form and in bind order.
pub struct AnyArguments<'q> {
    values: AnyArgumentBuffer<'q>,
}

impl<'q> View for AnyArguments<'q> {
    type V = Seq<Value>;

    closed spec fn view(&self) -> Seq<Value> {
        self.values@
    }
}

impl<'q> Default for AnyArguments<'q> {
    fn default() -> (out: Self)
        ensures
            out@ == Seq::<Value>::empty(),
    {
        AnyArguments { values: AnyArgumentBuffer(Vec::new()) }
    }
}

impl<'q> Arguments for AnyArguments<'q> {
    open spec fn bound(&self) -> Seq<Value> {
        self@
    }

    fn empty() -> (out: Self) {
        AnyArguments { values: AnyArgumentBuffer(Vec::new()) }
    }

    fn reserve(&mut self, additional: usize, size: usize) {
        self.values.0.reserve(additional);
    }

    fn add_null(&mut self) {
        self.values.push(AnyValueKind::Null);
    }

    fn add_small_int(&mut self, value: i16) {
        self.values.push(AnyValueKind::SmallInt(value));
    }

    fn add_integer(&mut self, value: i32) {
        self.values.push(AnyValueKind::Integer(value));
    }

    fn add_big_int(&mut self, value: i64) {
        self.values.push(AnyValueKind::BigInt(value));
    }

    fn add_real(&mut self, bits: u32) {
        self.values.push(AnyValueKind::Real(bits));
    }

    fn add_double(&mut self, bits: u64) {
        self.values.push(AnyValueKind::Double(bits));
    }

    fn add_text(&mut self, value: &str) {
        self.values.push(AnyValueKind::Text(Cow::Owned(value.to_owned())));
    }

    fn add_blob(&mut self, value: &[u8]) {
        self.values.push(AnyValueKind::Blob(Cow::Owned(slice_to_vec(value))));
    }
}

impl<'q> AnyArguments<'q> {
    /// Binds one more value, after those bound before.
    pub fn add<T: Encode<'q>>(&mut self, value: T)
        ensures
            final(self)@ == old(self)@.push(value.canonical()),
    {
        value.encode(&mut self.values);
    }

    /// How many values are bound.
    pub fn len(&self) -> (n: usize)
        ensures
            n == self@.len(),
    {
        self.values.0.len()
    }

    /// The value bound at position `i`.
    pub fn get(&self, i: usize) -> (value: Option<&AnyValueKind<'q>>)
        ensures
            match value {
                Some(v) => i < self@.len() && v@ == self@[i as int],
                None => i >= self@.len(),
            },
    {
        if i < self.values.0.len() {
            Some(&self.values.0[i])
        } else {
            None
        }
    }

    /// Replays the buffer into a backend's collector: each value once, in bind
    /// order, the absent value as that backend's typed absent value.
    pub fn convert_into<A: Arguments>(self) -> (out: A)
        ensures
            out.bound() == self@,
    {
        let mut out = A::empty();
        let mut i: usize = 0;
        while i < self.values.0.len()
            invariant
                i <= self.values.0.len(),
                out.bound() == self@.subrange(0, i as int),
            decreases self.values.0.len() - i,
        {
            match &self.values.0[i] {
                AnyValueKind::Null => out.add_null(),
                AnyValueKind::SmallInt(v) => out.add_small_int(*v),
                AnyValueKind::Integer(v) => out.add_integer(*v),
                AnyValueKind::BigInt(v) => out.add_big_int(*v),
                AnyValueKind::Real(r) => out.add_real(*r),
                AnyValueKind::Double(d) => out.add_double(*d),
                AnyValueKind::Text(t) => out.add_text(
                    match t {
                        Cow::Borrowed(s) => *s,
                        Cow::Owned(s) => s.as_str(),
                    },
                ),
                AnyValueKind::Blob(b) => out.add_blob(
                    match b {
                        Cow::Borrowed(s) => *s,
                        Cow::Owned(v) => v.as_slice(),
                    },
                ),
            }
            assert(self@.subrange(0, i + 1) == self@.subrange(0, i as int).push(self@[i as int]));
            i = i + 1;
        }
        assert(self@.subrange(0, i as int) == self@);
        out
    }
}

} // verus!
