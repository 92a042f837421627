//! The rows, columns and summaries that PostgreSQL returns.

use vstd::prelude::*;
use crate::column::ColumnNames;
use crate::postgres::type_info::{PgType, PgTypeInfo};
use crate::postgres::value::{PgDatum, PgDatumView};
use crate::value::views_of;

verus! {

/// One column of a PostgreSQL result.
#[derive(Debug)]
pub struct PgColumn {
    pub ordinal: usize,
    pub name: String,
    pub type_info: PgTypeInfo,
}

/// A [`PgColumn`] with its name taken as a sequence of characters.
pub struct PgColumnView {
    pub ordinal: usize,
    pub name: Seq<char>,
    pub pg_type: PgType,
}

impl View for PgColumn {
    type V = PgColumnView;

    open spec fn view(&self) -> PgColumnView {
        PgColumnView { ordinal: self.ordinal, name: self.name@, pg_type: self.type_info.0 }
    }
}

/// What PostgreSQL reports of a prepared statement.
#[derive(Debug)]
pub struct PgStatementMetadata {
    pub columns: Vec<PgColumn>,
    pub column_names: ColumnNames,
    pub parameters: Vec<PgTypeInfo>,
}

/// A [`PgStatementMetadata`] with each part taken by its view.
pub struct PgMetadataView {
    pub columns: Seq<PgColumnView>,
    pub column_names: Map<Seq<char>, usize>,
    pub parameters: Seq<PgType>,
}

impl View for PgStatementMetadata {
    type V = PgMetadataView;

    open spec fn view(&self) -> PgMetadataView {
        PgMetadataView {
            columns: views_of(self.columns@),
            column_names: self.column_names@,
            parameters: Seq::new(self.parameters.len() as nat, |i: int| self.parameters[i].0),
        }
    }
}

/// The summary that PostgreSQL gives of one statement that ran.
#[derive(Clone, Copy, Debug, PartialEq, Eq, Structural)]
pub struct PgQueryResult {
    pub rows_affected: u64,
}

impl PgQueryResult {
    pub fn rows_affected(&self) -> (n: u64)
        ensures
            n == self.rows_affected,
    {
        self.rows_affected
    }
}

/// What a row of PostgreSQL holds: its columns, the index of their names, and
/// its storage slots, of which one that holds nothing is a NULL.
pub struct PgRowView {
    pub column_names: Map<Seq<char>, usize>,
    pub columns: Seq<PgColumnView>,
    pub values: Seq<Option<PgDatumView>>,
}

impl PgRowView {
    /// There is one slot for each column, every column names a slot, and
    /// every name leads to a column.
    pub open spec fn wf(self) -> bool {
        &&& self.values.len() == self.columns.len()
        &&& forall|p: int|
            0 <= p < self.columns.len() ==> (#[trigger] self.columns[p]).ordinal
                < self.values.len()
        &&& forall|name: Seq<char>| #[trigger]
            self.column_names.contains_key(name) ==> self.column_names[name] < self.columns.len()
    }
}

/// What a storage slot holds, taken by its view.
pub open spec fn slot_view(slot: Option<PgDatum>) -> Option<PgDatumView> {
    match slot {
        None => None,
        Some(datum) => Some(datum@),
    }
}

/// One row of a PostgreSQL result.
#[derive(Debug)]
pub struct PgRow {
    values: Vec<Option<PgDatum>>,
    metadata: PgStatementMetadata,
}

impl View for PgRow {
    type V = PgRowView;

    closed spec fn view(&self) -> PgRowView {
        PgRowView {
            column_names: self.metadata.column_names@,
            columns: views_of(self.metadata.columns@),
            values: Seq::new(self.values.len() as nat, |i: int| slot_view(self.values[i])),
        }
    }
}

impl PgRow {
    #[verifier::type_invariant]
    closed spec fn inv(self) -> bool {
        self@.wf()
    }

    /// A row of the columns of `metadata`, with `values` in its storage slots.
    pub fn new(metadata: PgStatementMetadata, values: Vec<Option<PgDatum>>) -> (row: Self)
        requires
            values.len() == metadata.columns.len(),
            forall|p: int|
                0 <= p < metadata.columns.len() ==> (#[trigger] metadata.columns[p]).ordinal
                    < values.len(),
            forall|name: Seq<char>| #[trigger]
                metadata.column_names@.contains_key(name) ==> metadata.column_names@[name]
                    < metadata.columns.len(),
        ensures
            row@ == (PgRowView {
                column_names: metadata.column_names@,
                columns: views_of(metadata.columns@),
                values: Seq::new(values.len() as nat, |i: int| slot_view(values[i])),
            }),
    {
        PgRow { values, metadata }
    }

    /// A row of the columns of `metadata`, with `values` in its storage slots;
    /// or `None`, where there is not one slot for each column, a column names
    /// no slot, or a name leads beyond the columns.
    pub fn try_new(metadata: PgStatementMetadata, values: Vec<Option<PgDatum>>) -> (row: Option<
        Self,
    >)
        ensures
            row is Some <==> (PgRowView {
                column_names: metadata.column_names@,
                columns: views_of(metadata.columns@),
                values: Seq::new(values.len() as nat, |i: int| slot_view(values[i])),
            }).wf(),
            row matches Some(made) ==> made@ == (PgRowView {
                column_names: metadata.column_names@,
                columns: views_of(metadata.columns@),
                values: Seq::new(values.len() as nat, |i: int| slot_view(values[i])),
            }),
    {
        let width = metadata.columns.len();
        let ghost view = PgRowView {
            column_names: metadata.column_names@,
            columns: views_of(metadata.columns@),
            values: Seq::new(values.len() as nat, |i: int| slot_view(values[i])),
        };
        if values.len() != width {
            assert(!view.wf());
            return None;
        }
        if !metadata.column_names.all_below(width) {
            proof {
                if view.wf() {
                    assert forall|name: Seq<char>| #[trigger]
                        metadata.column_names@.contains_key(name) implies metadata.column_names@[name]
                        < width by {
                        assert(view.column_names.contains_key(name));
                    }
                }
            }
            return None;
        }
        let ghost columns = views_of(metadata.columns@);
        let mut p: usize = 0;
        while p < width
            invariant
                p <= width,
                width == metadata.columns.len(),
                width == values.len(),
                columns == views_of(metadata.columns@),
                view.columns == columns,
                view.values.len() == width,
                forall|q: int| 0 <= q < p ==> (#[trigger] columns[q]).ordinal < width,
            decreases width - p,
        {
            if metadata.columns[p].ordinal >= width {
                assert(view.columns[p as int].ordinal >= view.values.len());
                assert(!view.wf());
                return None;
            }
            p = p + 1;
        }
        assert forall|q: int| 0 <= q < metadata.columns.len() implies (
        #[trigger] metadata.columns[q]).ordinal < values.len() by {
            assert(columns[q].ordinal < width);
        }
        Some(PgRow::new(metadata, values))
    }

    /// The columns of the row.
    pub fn columns(&self) -> (columns: &[PgColumn])
        ensures
            views_of(columns@) == self@.columns,
    {
        self.metadata.columns.as_slice()
    }

    /// The index from column names to positions.
    pub fn column_names(&self) -> (names: &ColumnNames)
        ensures
            names@ == self@.column_names,
    {
        &self.metadata.column_names
    }

    /// How many storage slots the row has: one for each column.
    pub fn len(&self) -> (len: usize)
        ensures
            len == self@.values.len(),
            self@.wf(),
    {
        proof {
            use_type_invariant(self);
        }
        self.values.len()
    }

    /// What the storage slot at position `i` holds: `None` for a NULL.
    pub fn slot(&self, i: usize) -> (slot: Option<&PgDatum>)
        requires
            i < self@.values.len(),
        ensures
            match slot {
                None => self@.values[i as int] is None,
                Some(datum) => self@.values[i as int] == Some(datum@),
            },
    {
        match &self.values[i] {
            None => None,
            Some(datum) => Some(datum),
        }
    }
}

} // verus!
