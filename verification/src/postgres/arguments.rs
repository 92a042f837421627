//! The collector of the arguments of one PostgreSQL query.

use vstd::prelude::*;
use crate::arguments::{AnyArguments, Arguments};
use crate::postgres::type_info::{PgType, PgTypeInfo};
use crate::postgres::value::{canonical_of, native_of, native_type_of, PgDatum, PgDatumView};
use crate::value::{slice_to_vec, views_of, Value};

verus! {

/// One bound argument: its declared type, and its value unless it is NULL.
#[derive(Debug)]
pub struct PgArgument {
    pub type_info: PgTypeInfo,
    pub value: Option<PgDatum>,
}

/// A [`PgArgument`] with its value taken by its view.
pub struct PgArgumentView {
    pub pg_type: PgType,
    pub value: Option<PgDatumView>,
}

impl View for PgArgument {
    type V = PgArgumentView;

    open spec fn view(&self) -> PgArgumentView {
        PgArgumentView {
            pg_type: self.type_info.0,
            value: match self.value {
                None => None,
                Some(datum) => Some(datum@),
            },
        }
    }
}

/// The argument that a canonical value is bound as.
pub open spec fn argument_of(value: Value) -> PgArgumentView {
    PgArgumentView { pg_type: native_type_of(value), value: native_of(value) }
}

/// The arguments of one query, in bind order.
#[derive(Debug)]
pub struct PgArguments {
    entries: Vec<PgArgument>,
}

impl View for PgArguments {
    type V = Seq<PgArgumentView>;

    closed spec fn view(&self) -> Seq<PgArgumentView> {
        views_of(self.entries@)
    }
}

impl PgArguments {
    #[verifier::type_invariant]
    closed spec fn inv(self) -> bool {
        forall|i: int|
            0 <= i < self@.len() ==> canonical_of((#[trigger] self@[i]).value) is Some
                && self@[i].pg_type == native_type_of(canonical_of(self@[i].value)->0)
    }

    /// How many arguments are bound.
    pub fn len(&self) -> (n: usize)
        ensures
            n == self@.len(),
    {
        self.entries.len()
    }

    /// The argument bound at position `i`.
    pub fn get(&self, i: usize) -> (argument: Option<&PgArgument>)
        ensures
            match argument {
                Some(a) => i < self@.len() && a@ == self@[i as int],
                None => i >= self@.len(),
            },
    {
        if i < self.entries.len() {
            Some(&self.entries[i])
        } else {
            None
        }
    }

    /// The native arguments that the canonical `arguments` are bound as: each
    /// value in its place, the absent value as a NULL declared `VOID`.
    pub fn from_any(arguments: AnyArguments<'_>) -> (out: Self)
        ensures
            out.bound() == arguments@,
            out@ == arguments@.map_values(|value: Value| argument_of(value)),
    {
        let out = arguments.convert_into::<PgArguments>();
        proof {
            use_type_invariant(&out);
            assert(out@ =~= arguments@.map_values(|value: Value| argument_of(value)));
        }
        out
    }

    fn add(&mut self, pg_type: PgType, value: Option<PgDatum>, Ghost(bound): Ghost<Value>)
        requires
            pg_type == native_type_of(bound),
            native_of(bound) == match value {
                None => None::<PgDatumView>,
                Some(datum) => Some(datum@),
            },
        ensures
            final(self).bound() == old(self).bound().push(bound),
    {
        proof {
            use_type_invariant(&*self);
        }
        let mut entries: Vec<PgArgument> = Vec::new();
        std::mem::swap(&mut self.entries, &mut entries);
        entries.push(PgArgument { type_info: PgTypeInfo(pg_type), value });
        proof {
            let after = views_of(entries@);
            assert(after == old(self)@.push(argument_of(bound)));
            assert(canonical_of(native_of(bound)) == Some(bound));
            assert forall|i: int| 0 <= i < after.len() implies canonical_of(
                (#[trigger] after[i]).value,
            ) is Some && after[i].pg_type == native_type_of(canonical_of(after[i].value)->0) by {
                if i < old(self)@.len() {
                    assert(after[i] == old(self)@[i]);
                }
            }
        }
        std::mem::swap(&mut self.entries, &mut entries);
        assert(self@ == old(self)@.push(argument_of(bound)));
        assert(self.bound() == old(self).bound().push(bound));
    }
}

impl Arguments for PgArguments {
    closed spec fn bound(&self) -> Seq<Value> {
        Seq::new(self@.len(), |i: int| canonical_of(self@[i].value)->0)
    }

    fn empty() -> (out: Self) {
        PgArguments { entries: Vec::new() }
    }

    /// Makes room for `additional` arguments. The arguments stay as they are,
    /// in their native form as in their canonical reading.
    fn reserve(&mut self, additional: usize, size: usize)
        ensures
            final(self)@ == old(self)@,
    {
        proof {
            use_type_invariant(&*self);
        }
        let mut entries: Vec<PgArgument> = Vec::new();
        std::mem::swap(&mut self.entries, &mut entries);
        entries.reserve(additional);
        assert(views_of(entries@) == old(self)@);
        std::mem::swap(&mut self.entries, &mut entries);
    }

    /// Binds NULL, declared as `VOID`.
    fn add_null(&mut self) {
        self.add(PgType::Void, None, Ghost(Value::Null));
    }

    fn add_small_int(&mut self, value: i16) {
        self.add(PgType::Int2, Some(PgDatum::Int2(value)), Ghost(Value::SmallInt(value)));
    }

    fn add_integer(&mut self, value: i32) {
        self.add(PgType::Int4, Some(PgDatum::Int4(value)), Ghost(Value::Integer(value)));
    }

    fn add_big_int(&mut self, value: i64) {
        self.add(PgType::Int8, Some(PgDatum::Int8(value)), Ghost(Value::BigInt(value)));
    }

    fn add_real(&mut self, bits: u32) {
        self.add(PgType::Float4, Some(PgDatum::Float4(bits)), Ghost(Value::Real(bits)));
    }

    fn add_double(&mut self, bits: u64) {
        self.add(PgType::Float8, Some(PgDatum::Float8(bits)), Ghost(Value::Double(bits)));
    }

    fn add_text(&mut self, value: &str) {
        self.add(PgType::Text, Some(PgDatum::Text(value.to_owned())), Ghost(Value::Text(value@)));
    }

    fn add_blob(&mut self, value: &[u8]) {
        self.add(
            PgType::Bytea,
            Some(PgDatum::Bytea(slice_to_vec(value))),
            Ghost(Value::Blob(value@)),
        );
    }
}

} // verus!
