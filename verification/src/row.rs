//! One row of a result, and typed access to its values.

use vstd::prelude::*;
use crate::column::{AnyColumn, ColumnNames, ColumnView};
use crate::error::{DecodeError, Error, ErrorView};
use crate::type_info::AnyTypeInfoKind;
use crate::types::Decode;
use crate::value::{views_of, AnyValue, Value};

verus! {

/// What a row holds: the index of its column names, its columns, and one value
/// for each column.
pub struct RowView {
    pub column_names: Map<Seq<char>, usize>,
    pub columns: Seq<ColumnView>,
    pub values: Seq<Value>,
}

impl RowView {
    /// There is one value for each column, and every name leads to a column.
    pub open spec fn wf(self) -> bool {
        &&& self.values.len() == self.columns.len()
        &&& forall|name: Seq<char>| #[trigger]
            self.column_names.contains_key(name) ==> self.column_names[name] < self.columns.len()
    }

    /// The value at position `resolved`, or the failure to resolve or to reach it.
    pub open spec fn raw(self, resolved: Result<usize, ErrorView>) -> Result<Value, ErrorView> {
        match resolved {
            Err(e) => Err(e),
            Ok(i) => if i < self.values.len() {
                Ok(self.values[i as int])
            } else {
                Err(ErrorView::ColumnIndexOutOfBounds { index: i, len: self.columns.len() as usize })
            },
        }
    }

    /// Whether the value at position `i` is read as `T` without the check that
    /// `T` accepts its kind: it is, where the value is absent or the column is
    /// declared without a type.
    pub open spec fn unchecked(self, i: int) -> bool {
        self.values[i] is Null || self.columns[i].kind == AnyTypeInfoKind::Null
    }

    /// The value at position `resolved` read as `T`, in canonical form, or the
    /// failure.
    pub open spec fn get<T: Decode>(self, resolved: Result<usize, ErrorView>) -> Result<
        Value,
        ErrorView,
    > {
        match self.raw(resolved) {
            Err(e) => Err(e),
            Ok(value) => {
                let i = resolved->Ok_0;
                if !self.unchecked(i as int) && !T::accepts(value.kind()) {
                    Err(
                        ErrorView::ColumnDecode {
                            index: i,
                            source: DecodeError::MismatchedTypes {
                                requested: T::kind(),
                                stored: value.kind(),
                            },
                        },
                    )
                } else {
                    match T::decoded(value) {
                        Ok(read) => Ok(read),
                        Err(source) => Err(ErrorView::ColumnDecode { index: i, source }),
                    }
                }
            },
        }
    }
}

/// One row of a result.
pub struct AnyRow {
    column_names: ColumnNames,
    columns: Vec<AnyColumn>,
    values: Vec<AnyValue>,
}

impl View for AnyRow {
    type V = RowView;

    closed spec fn view(&self) -> RowView {
        RowView {
            column_names: self.column_names@,
            columns: views_of(self.columns@),
            values: views_of(self.values@),
        }
    }
}

/// Something that names a column of a row: a position, or a name.
pub trait ColumnIndex {
    /// The position that this stands for in `row`, or the failure.
    spec fn resolved(&self, row: RowView) -> Result<usize, ErrorView>;

    /// Resolves this to a position in `row`.
    fn index(&self, row: &AnyRow) -> (result: Result<usize, Error>)
        ensures
            match result {
                Ok(i) => self.resolved(row@) == Ok::<usize, ErrorView>(i),
                Err(e) => self.resolved(row@) == Err::<usize, ErrorView>(e@),
            },
    ;
}

impl ColumnIndex for usize {
    /// A position stands for itself, where the row is that wide.
    open spec fn resolved(&self, row: RowView) -> Result<usize, ErrorView> {
        if *self < row.columns.len() {
            Ok(*self)
        } else {
            Err(ErrorView::ColumnIndexOutOfBounds { index: *self, len: row.columns.len() as usize })
        }
    }

    fn index(&self, row: &AnyRow) -> (result: Result<usize, Error>) {
        let len = row.len();
        if *self >= len {
            Err(Error::ColumnIndexOutOfBounds { index: *self, len })
        } else {
            Ok(*self)
        }
    }
}

impl<'i> ColumnIndex for &'i str {
    /// A name stands for the position that the row's index gives it.
    open spec fn resolved(&self, row: RowView) -> Result<usize, ErrorView> {
        if row.column_names.contains_key(self@) {
            Ok(row.column_names[self@])
        } else {
            Err(ErrorView::ColumnNotFound(self@))
        }
    }

    fn index(&self, row: &AnyRow) -> (result: Result<usize, Error>) {
        match row.column_names().get(*self) {
            Some(i) => Ok(i),
            None => Err(Error::ColumnNotFound((*self).to_owned())),
        }
    }
}

impl AnyRow {
    #[verifier::type_invariant]
    closed spec fn inv(self) -> bool {
        self@.wf()
    }

    /// Whether the row owns every text and blob it holds.
    pub closed spec fn owns_values(&self) -> bool {
        forall|i: int| 0 <= i < self.values.len() ==> (#[trigger] self.values[i]).kind.is_owned()
    }

    /// A row of `columns` with one value for each, whose names are found
    /// through `column_names`.
    pub fn new(column_names: ColumnNames, columns: Vec<AnyColumn>, values: Vec<AnyValue>) -> (row:
        Self)
        requires
            values.len() == columns.len(),
            forall|name: Seq<char>| #[trigger]
                column_names@.contains_key(name) ==> column_names@[name] < columns.len(),
        ensures
            row@ == (RowView {
                column_names: column_names@,
                columns: views_of(columns@),
                values: views_of(values@),
            }),
            row.owns_values() <==> forall|i: int|
                0 <= i < values.len() ==> (#[trigger] values[i]).kind.is_owned(),
    {
        AnyRow { column_names, columns, values }
    }

    /// A row of `columns` with one value for each, whose names are found
    /// through `column_names`; or `None`, where there is not one value for
    /// each column or a name leads beyond the columns.
    pub fn try_new(column_names: ColumnNames, columns: Vec<AnyColumn>, values: Vec<AnyValue>) -> (row:
        Option<Self>)
        ensures
            row is Some <==> (RowView {
                column_names: column_names@,
                columns: views_of(columns@),
                values: views_of(values@),
            }).wf(),
            row matches Some(made) ==> made@ == (RowView {
                column_names: column_names@,
                columns: views_of(columns@),
                values: views_of(values@),
            }),
    {
        let ghost view = RowView {
            column_names: column_names@,
            columns: views_of(columns@),
            values: views_of(values@),
        };
        if values.len() != columns.len() {
            assert(!view.wf());
            return None;
        }
        if !column_names.all_below(columns.len()) {
            proof {
                if view.wf() {
                    assert forall|name: Seq<char>| #[trigger]
                        column_names@.contains_key(name) implies column_names@[name]
                        < columns.len() by {
                        assert(view.column_names.contains_key(name));
                    }
                }
            }
            return None;
        }
        Some(AnyRow::new(column_names, columns, values))
    }

    /// How many columns the row has: it has one value for each.
    pub fn len(&self) -> (len: usize)
        ensures
            len == self@.columns.len(),
            self@.wf(),
    {
        proof {
            use_type_invariant(self);
        }
        self.columns.len()
    }

    /// The columns of the row, in the backend's order.
    pub fn columns(&self) -> (columns: &[AnyColumn])
        ensures
            views_of(columns@) == self@.columns,
    {
        self.columns.as_slice()
    }

    /// The index from column names to positions.
    pub fn column_names(&self) -> (names: &ColumnNames)
        ensures
            names@ == self@.column_names,
    {
        &self.column_names
    }

    /// The stored value of the column that `index` names.
    ///
    /// The value is handed out as it is stored, not as a copy.
    pub fn try_get_raw<I: ColumnIndex>(&self, index: I) -> (result: Result<&AnyValue, Error>)
        ensures
            match result {
                Ok(value) => self@.raw(index.resolved(self@)) == Ok::<Value, ErrorView>(value@),
                Err(e) => self@.raw(index.resolved(self@)) == Err::<Value, ErrorView>(e@),
            },
    {
        match index.index(self) {
            Err(e) => Err(e),
            Ok(i) => self.value_at(i),
        }
    }

    /// The stored value at position `i`.
    fn value_at(&self, i: usize) -> (result: Result<&AnyValue, Error>)
        ensures
            match result {
                Ok(value) => self@.raw(Ok(i)) == Ok::<Value, ErrorView>(value@) && i
                    < self.values.len() && *value == self.values[i as int],
                Err(e) => self@.raw(Ok(i)) == Err::<Value, ErrorView>(e@),
            },
    {
        proof {
            use_type_invariant(self);
        }
        if i < self.values.len() {
            Ok(&self.values[i])
        } else {
            Err(Error::ColumnIndexOutOfBounds { index: i, len: self.columns.len() })
        }
    }

    /// The value of the column that `index` names, read as `T`.
    ///
    /// Whether `T` accepts the stored kind is checked first, unless the value
    /// is absent or the column is declared without a type. A failure to read
    /// the value names the position of the column.
    pub fn try_get<T: Decode, I: ColumnIndex>(&self, index: I) -> (result: Result<T, Error>)
        ensures
            match result {
                Ok(read) => self@.get::<T>(index.resolved(self@)) == Ok::<Value, ErrorView>(
                    read.canonical(),
                ),
                Err(e) => self@.get::<T>(index.resolved(self@)) == Err::<Value, ErrorView>(e@),
            },
    {
        proof {
            use_type_invariant(self);
        }
        let i = match index.index(self) {
            Err(e) => { return Err(e); },
            Ok(i) => i,
        };
        let value = match self.value_at(i) {
            Err(e) => { return Err(e); },
            Ok(value) => value,
        };
        let ty = value.type_info();
        if !value.is_null() && !self.columns[i].type_info.is_null() && !T::compatible(&ty) {
            Err(
                Error::ColumnDecode {
                    index: i,
                    source: DecodeError::MismatchedTypes {
                        requested: T::type_info().kind,
                        stored: ty.kind,
                    },
                },
            )
        } else {
            match T::decode(&value.kind) {
                Ok(read) => Ok(read),
                Err(source) => Err(Error::ColumnDecode { index: i, source }),
            }
        }
    }
}

/// An absent value reads as every type, whatever its column declares.
pub proof fn lemma_null_reads_as_any<T: Decode>(row: RowView, resolved: Result<usize, ErrorView>)
    requires
        resolved matches Ok(i) && i < row.values.len() && row.values[i as int] is Null,
    ensures
        row.get::<T>(resolved) is Ok,
        row.get::<T>(resolved)->Ok_0 == T::decoded(Value::Null)->Ok_0,
{
    T::lemma_decodes_null();
}

/// A name that the row does not know fails to resolve, with that very name,
/// whether the value is asked for as it is stored or as a type.
pub proof fn lemma_unknown_name<T: Decode>(row: RowView, name: &str)
    requires
        !row.column_names.contains_key(name@),
    ensures
        name.resolved(row) == Err::<usize, ErrorView>(ErrorView::ColumnNotFound(name@)),
        row.raw(name.resolved(row)) == Err::<Value, ErrorView>(ErrorView::ColumnNotFound(name@)),
        row.get::<T>(name.resolved(row)) == Err::<Value, ErrorView>(
            ErrorView::ColumnNotFound(name@),
        ),
{
}

/// A position at or beyond the width of the row fails, with the position and
/// the width.
pub proof fn lemma_position_out_of_bounds<T: Decode>(row: RowView, position: usize)
    requires
        row.wf(),
        position >= row.columns.len(),
    ensures
        row.raw(position.resolved(row)) == Err::<Value, ErrorView>(
            ErrorView::ColumnIndexOutOfBounds { index: position, len: row.columns.len() as usize },
        ),
        row.get::<T>(position.resolved(row)) == Err::<Value, ErrorView>(
            ErrorView::ColumnIndexOutOfBounds { index: position, len: row.columns.len() as usize },
        ),
{
}

/// A value that was bound from `x` reads back as `x`, whatever its column
/// declares.
pub proof fn lemma_reads_back<T: Decode>(row: RowView, i: usize, x: T)
    requires
        i < row.values.len(),
        row.values[i as int] == x.canonical(),
    ensures
        row.get::<T>(Ok(i)) == Ok::<Value, ErrorView>(x.canonical()),
{
    T::lemma_decodes_own(x);
}

/// A stored `SmallInt` reads as a 32-bit and as a 64-bit integer of the same
/// value, and a stored `Integer` as a 64-bit integer.
pub proof fn lemma_reads_widened(row: RowView, i: usize)
    requires
        i < row.values.len(),
    ensures
        row.values[i as int] matches Value::SmallInt(x) ==> row.get::<i32>(Ok(i)) == Ok::<
            Value,
            ErrorView,
        >(Value::Integer(x as i32)) && row.get::<i64>(Ok(i)) == Ok::<Value, ErrorView>(
            Value::BigInt(x as i64),
        ),
        row.values[i as int] matches Value::Integer(x) ==> row.get::<i64>(Ok(i)) == Ok::<
            Value,
            ErrorView,
        >(Value::BigInt(x as i64)),
{
}

} // verus!
