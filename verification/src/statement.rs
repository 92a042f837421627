//! What a backend reports of a statement: its description once prepared, and
//! the summary of each statement it ran.

use std::borrow::Cow;
use vstd::prelude::*;
use crate::column::{AnyColumn, ColumnNames, ColumnView};
use crate::type_info::{AnyTypeInfo, AnyTypeInfoKind};
use crate::value::views_of;

verus! {

/// One of two things.
#[derive(Debug)]
pub enum Either<L, R> {
    Left(L),
    Right(R),
}

/// The summary of one statement that ran.
#[derive(Clone, Copy, Debug, PartialEq, Eq, Structural)]
pub struct AnyQueryResult {
    pub rows_affected: u64,
    /// The identifier of the last inserted row, where the backend reports one.
    pub last_insert_id: Option<i64>,
}

/// A prepared statement in canonical terms.
#[derive(Debug)]
pub struct AnyStatement<'q> {
    pub sql: Cow<'q, str>,
    /// The parameter types, where the backend reports them: `None` says that
    /// it does not, an empty list that the statement takes no parameter.
    pub parameters: Option<Vec<AnyTypeInfo>>,
    pub column_names: ColumnNames,
    pub columns: Vec<AnyColumn>,
}

/// An [`AnyStatement`] with each part taken by its view.
pub struct StatementView {
    pub sql: Seq<char>,
    pub parameters: Option<Seq<AnyTypeInfoKind>>,
    pub column_names: Map<Seq<char>, usize>,
    pub columns: Seq<ColumnView>,
}

/// The kinds of a list of types.
pub open spec fn kinds_of(types: Seq<AnyTypeInfo>) -> Seq<AnyTypeInfoKind> {
    Seq::new(types.len(), |i: int| types[i].kind)
}

impl<'q> View for AnyStatement<'q> {
    type V = StatementView;

    open spec fn view(&self) -> StatementView {
        StatementView {
            sql: self.sql@,
            parameters: match self.parameters {
                None => None,
                Some(types) => Some(kinds_of(types@)),
            },
            column_names: self.column_names@,
            columns: views_of(self.columns@),
        }
    }
}

/// The schema of a statement: its columns, its parameters, and for each
/// column whether it can hold NULL, where that is known.
#[derive(Debug)]
pub struct Describe {
    pub columns: Vec<AnyColumn>,
    pub parameters: Option<Vec<AnyTypeInfo>>,
    pub nullable: Vec<Option<bool>>,
}

} // verus!
