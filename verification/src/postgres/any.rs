//! The mapping between PostgreSQL's native values and the canonical model.
//!
//! Nothing here talks to a server. What is sent is decided here, and what
//! comes back is mapped here; the exchange itself belongs to the caller.

use std::borrow::Cow;
use vstd::prelude::*;
use crate::arguments::AnyArguments;
use crate::column::{AnyColumn, ColumnView};
use crate::error::{
    first_failure,
    lemma_first_failure_at,
    lemma_no_failure,
    DecodeError,
    Error,
    ErrorView,
    Position,
};
use crate::postgres::arguments::{argument_of, PgArgumentView, PgArguments};
use crate::postgres::row::{
    PgColumn,
    PgColumnView,
    PgMetadataView,
    PgQueryResult,
    PgRow,
    PgRowView,
    PgStatementMetadata,
};
use crate::postgres::type_info::{PgType, PgTypeInfo};
use crate::postgres::value::{PgDatum, PgDatumView};
use crate::row::{AnyRow, RowView};
use crate::statement::{AnyQueryResult, AnyStatement, Describe, Either, StatementView};
use crate::type_info::{AnyTypeInfo, AnyTypeInfoKind};
use crate::value::{slice_to_vec, views_of, AnyValue, AnyValueKind, Value};

verus! {

/// The canonical kind of a type of PostgreSQL, if it has one.
pub open spec fn canonical_kind(pg_type: PgType) -> Option<AnyTypeInfoKind> {
    match pg_type {
        PgType::Void => Some(AnyTypeInfoKind::Null),
        PgType::Int2 => Some(AnyTypeInfoKind::SmallInt),
        PgType::Int4 => Some(AnyTypeInfoKind::Integer),
        PgType::Int8 => Some(AnyTypeInfoKind::BigInt),
        PgType::Float4 => Some(AnyTypeInfoKind::Real),
        PgType::Float8 => Some(AnyTypeInfoKind::Double),
        PgType::Bytea => Some(AnyTypeInfoKind::Blob),
        PgType::Text => Some(AnyTypeInfoKind::Text),
        _ => None,
    }
}

/// The failure to map the type `pg_type`, met at `index` among the
/// parameters or the columns.
pub open spec fn unsupported(position: Position, index: usize, pg_type: PgType) -> ErrorView {
    ErrorView::UnsupportedType { position, index, native_type: pg_type.spec_name() }
}

/// The canonical type of the parameter at position `i`, or the failure that
/// names it.
pub open spec fn mapped_parameter(parameters: Seq<PgType>, i: int) -> Result<
    AnyTypeInfoKind,
    ErrorView,
> {
    match canonical_kind(parameters[i]) {
        Some(kind) => Ok(kind),
        None => Err(unsupported(Position::Parameter, i as usize, parameters[i])),
    }
}

/// The canonical form of a column, or the failure that names its position.
pub open spec fn mapped_column(column: PgColumnView) -> Result<ColumnView, ErrorView> {
    match canonical_kind(column.pg_type) {
        Some(kind) => Ok(ColumnView { ordinal: column.ordinal, name: column.name, kind }),
        None => Err(unsupported(Position::Column, column.ordinal, column.pg_type)),
    }
}

/// What a stored value gives when it is read as the kind that its column
/// declares.
pub open spec fn read_as(kind: AnyTypeInfoKind, stored: PgDatumView) -> Result<Value, DecodeError> {
    match (kind, stored) {
        (AnyTypeInfoKind::Null, _) => Ok(Value::Null),
        (AnyTypeInfoKind::SmallInt, PgDatumView::Int2(i)) => Ok(Value::SmallInt(i)),
        (AnyTypeInfoKind::Integer, PgDatumView::Int4(i)) => Ok(Value::Integer(i)),
        (AnyTypeInfoKind::BigInt, PgDatumView::Int8(i)) => Ok(Value::BigInt(i)),
        (AnyTypeInfoKind::Real, PgDatumView::Float4(bits)) => Ok(Value::Real(bits)),
        (AnyTypeInfoKind::Double, PgDatumView::Float8(bits)) => Ok(Value::Double(bits)),
        (AnyTypeInfoKind::Text, PgDatumView::Text(text)) => Ok(Value::Text(text)),
        (AnyTypeInfoKind::Blob, PgDatumView::Bytea(bytes)) => Ok(Value::Blob(bytes)),
        _ => Err(DecodeError::MalformedValue { declared: kind }),
    }
}

/// The canonical value of the column at position `p` of `row`, or the failure
/// to map its type or to read its slot. A slot that holds nothing gives the
/// absent value, whatever the column declares.
pub open spec fn mapped_value(row: PgRowView, p: int) -> Result<Value, ErrorView> {
    let column = row.columns[p];
    match mapped_column(column) {
        Err(e) => Err(e),
        Ok(mapped) => match row.values[column.ordinal as int] {
            None => Ok(Value::Null),
            Some(stored) => match read_as(mapped.kind, stored) {
                Ok(value) => Ok(value),
                Err(source) => Err(ErrorView::ColumnDecode { index: column.ordinal, source }),
            },
        },
    }
}

/// The outcome of each column of `row`, in the order of the columns.
pub open spec fn mapped_values(row: PgRowView) -> Seq<Result<Value, ErrorView>> {
    Seq::new(row.columns.len(), |p: int| mapped_value(row, p))
}

/// The canonical form of `row`, or the failure of the first column that has
/// one: no row is made of the columns that come before it.
pub open spec fn mapped_row(row: PgRowView) -> Result<RowView, ErrorView> {
    match first_failure(mapped_values(row)) {
        Some(e) => Err(e),
        None => Ok(
            RowView {
                column_names: row.column_names,
                columns: Seq::new(row.columns.len(), |p: int| mapped_column(row.columns[p])->Ok_0),
                values: Seq::new(row.columns.len(), |p: int| mapped_value(row, p)->Ok_0),
            },
        ),
    }
}

/// The outcome of each parameter and then of each column of `metadata`.
pub open spec fn mapped_types(metadata: PgMetadataView) -> Seq<Result<AnyTypeInfoKind, ErrorView>> {
    Seq::new(
        metadata.parameters.len() + metadata.columns.len(),
        |i: int|
            if i < metadata.parameters.len() {
                mapped_parameter(metadata.parameters, i)
            } else {
                match mapped_column(metadata.columns[i - metadata.parameters.len()]) {
                    Ok(column) => Ok(column.kind),
                    Err(e) => Err(e),
                }
            },
    )
}

/// The description of the statement `sql` in canonical terms, or the failure
/// of the first parameter, else of the first column, whose type has no
/// canonical counterpart.
pub open spec fn mapped_statement(sql: Seq<char>, metadata: PgMetadataView) -> Result<
    StatementView,
    ErrorView,
> {
    match first_failure(mapped_types(metadata)) {
        Some(e) => Err(e),
        None => Ok(
            StatementView {
                sql,
                parameters: Some(
                    Seq::new(
                        metadata.parameters.len(),
                        |i: int| canonical_kind(metadata.parameters[i])->0,
                    ),
                ),
                column_names: metadata.column_names,
                columns: Seq::new(
                    metadata.columns.len(),
                    |p: int| mapped_column(metadata.columns[p])->Ok_0,
                ),
            },
        ),
    }
}

/// The canonical type of a type of PostgreSQL, or `None` where it has none.
pub fn map_type(pg_type: &PgTypeInfo) -> (mapped: Option<AnyTypeInfo>)
    ensures
        mapped == match canonical_kind(pg_type.0) {
            Some(kind) => Some(AnyTypeInfo { kind }),
            None => None,
        },
{
    Some(
        AnyTypeInfo {
            kind: match &pg_type.0 {
                PgType::Void => AnyTypeInfoKind::Null,
                PgType::Int2 => AnyTypeInfoKind::SmallInt,
                PgType::Int4 => AnyTypeInfoKind::Integer,
                PgType::Int8 => AnyTypeInfoKind::BigInt,
                PgType::Float4 => AnyTypeInfoKind::Real,
                PgType::Float8 => AnyTypeInfoKind::Double,
                PgType::Bytea => AnyTypeInfoKind::Blob,
                PgType::Text => AnyTypeInfoKind::Text,
                _ => { return None; },
            },
        },
    )
}

/// The canonical form of a column of PostgreSQL.
///
/// Fails where the type of the column has no canonical counterpart, with the
/// position of the column and the name of the type.
pub fn map_column(col: &PgColumn) -> (mapped: Result<AnyColumn, Error>)
    ensures
        match mapped {
            Ok(column) => mapped_column(col@) == Ok::<ColumnView, ErrorView>(column@),
            Err(e) => mapped_column(col@) == Err::<ColumnView, ErrorView>(e@),
        },
{
    match map_type(&col.type_info) {
        None => Err(
            Error::UnsupportedType {
                position: Position::Column,
                index: col.ordinal,
                native_type: col.type_info.name().to_owned(),
            },
        ),
        Some(type_info) => Ok(AnyColumn { ordinal: col.ordinal, name: col.name.clone(), type_info }),
    }
}

/// Reads a stored value as the kind that its column declares, into a value
/// that owns its text or bytes.
pub fn decode_datum(kind: AnyTypeInfoKind, stored: &PgDatum) -> (read: Result<
    AnyValueKind<'static>,
    DecodeError,
>)
    ensures
        match read {
            Ok(value) => read_as(kind, stored@) == Ok::<Value, DecodeError>(value@)
                && value.is_owned(),
            Err(e) => read_as(kind, stored@) == Err::<Value, DecodeError>(e),
        },
{
    match (kind, stored) {
        (AnyTypeInfoKind::Null, _) => Ok(AnyValueKind::Null),
        (AnyTypeInfoKind::SmallInt, PgDatum::Int2(i)) => Ok(AnyValueKind::SmallInt(*i)),
        (AnyTypeInfoKind::Integer, PgDatum::Int4(i)) => Ok(AnyValueKind::Integer(*i)),
        (AnyTypeInfoKind::BigInt, PgDatum::Int8(i)) => Ok(AnyValueKind::BigInt(*i)),
        (AnyTypeInfoKind::Real, PgDatum::Float4(bits)) => Ok(AnyValueKind::Real(*bits)),
        (AnyTypeInfoKind::Double, PgDatum::Float8(bits)) => Ok(AnyValueKind::Double(*bits)),
        (AnyTypeInfoKind::Text, PgDatum::Text(text)) => Ok(
            AnyValueKind::Text(Cow::Owned(text.clone())),
        ),
        (AnyTypeInfoKind::Blob, PgDatum::Bytea(bytes)) => Ok(
            AnyValueKind::Blob(Cow::Owned(slice_to_vec(bytes.as_slice()))),
        ),
        _ => Err(DecodeError::MalformedValue { declared: kind }),
    }
}

/// The canonical form of a row of PostgreSQL: each column mapped, and each
/// value read as the kind of its column, a NULL as the absent value.
///
/// Fails with the failure of the first column whose type has no canonical
/// counterpart or whose value cannot be read.
pub fn map_row(row: PgRow) -> (mapped: Result<AnyRow, Error>)
    ensures
        match mapped {
            Ok(out) => mapped_row(row@) == Ok::<RowView, ErrorView>(out@) && out.owns_values(),
            Err(e) => mapped_row(row@) == Err::<RowView, ErrorView>(e@),
        },
{
    let n = row.len();
    let mut columns: Vec<AnyColumn> = Vec::new();
    let mut values: Vec<AnyValue> = Vec::new();
    let ghost outcomes = mapped_values(row@);
    let mut p: usize = 0;
    assert(outcomes.skip(0) == outcomes);
    while p < n
        invariant
            p <= n,
            n == row@.columns.len(),
            n == row@.values.len(),
            row@.wf(),
            outcomes == mapped_values(row@),
            first_failure(outcomes) == first_failure(outcomes.skip(p as int)),
            columns.len() == p,
            values.len() == p,
            forall|q: int|
                0 <= q < p ==> mapped_column(row@.columns[q]) == Ok::<ColumnView, ErrorView>(
                    (#[trigger] columns[q])@,
                ),
            forall|q: int|
                0 <= q < p ==> mapped_value(row@, q) == Ok::<Value, ErrorView>(
                    (#[trigger] values[q])@,
                ),
            forall|q: int| 0 <= q < p ==> (#[trigger] values[q]).kind.is_owned(),
        decreases n - p,
    {
        let col = &row.columns()[p];
        assert(col@ == row@.columns[p as int]);
        let i = col.ordinal;
        let ghost rest = outcomes.skip(p as int);
        assert(rest[0] == mapped_value(row@, p as int));
        assert(rest.skip(1) == outcomes.skip(p + 1));
        let any_col = match map_column(col) {
            Err(e) => { return Err(e); },
            Ok(any_col) => any_col,
        };
        let kind = match row.slot(i) {
            None => AnyValueKind::Null,
            Some(stored) => match decode_datum(any_col.type_info.kind, stored) {
                Err(source) => { return Err(Error::ColumnDecode { index: i, source }); },
                Ok(kind) => kind,
            },
        };
        columns.push(any_col);
        values.push(AnyValue { kind });
        p = p + 1;
    }
    let names = row.column_names().clone();
    let ghost wanted = mapped_row(row@)->Ok_0;
    assert(views_of(columns@) == wanted.columns);
    assert(views_of(values@) == wanted.values);
    let out = AnyRow::new(names, columns, values);
    Ok(out)
}

/// The canonical summary of a statement that PostgreSQL ran. PostgreSQL
/// reports no identifier of the last inserted row.
pub fn map_result(res: PgQueryResult) -> (mapped: AnyQueryResult)
    ensures
        mapped == (AnyQueryResult { rows_affected: res.rows_affected, last_insert_id: None }),
{
    AnyQueryResult { rows_affected: res.rows_affected(), last_insert_id: None }
}

/// The description of a prepared statement in canonical terms, from what
/// PostgreSQL reported of it.
///
/// Every parameter is mapped, then every column. The first type that has no
/// canonical counterpart fails the whole, with its position and its name: no
/// description is made of the rest.
pub fn map_statement<'q>(sql: &'q str, metadata: &PgStatementMetadata) -> (mapped: Result<
    AnyStatement<'q>,
    Error,
>)
    ensures
        match mapped {
            Ok(statement) => mapped_statement(sql@, metadata@) == Ok::<StatementView, ErrorView>(
                statement@,
            ) && statement.sql is Borrowed,
            Err(e) => mapped_statement(sql@, metadata@) == Err::<StatementView, ErrorView>(e@),
        },
{
    let ghost outcomes = mapped_types(metadata@);
    let count = metadata.parameters.len();
    let mut parameters: Vec<AnyTypeInfo> = Vec::new();
    let mut i: usize = 0;
    assert(outcomes.skip(0) == outcomes);
    while i < count
        invariant
            i <= count,
            count == metadata.parameters.len(),
            outcomes == mapped_types(metadata@),
            first_failure(outcomes) == first_failure(outcomes.skip(i as int)),
            parameters.len() == i,
            forall|j: int|
                0 <= j < i ==> canonical_kind(metadata.parameters[j].0) == Some(
                    (#[trigger] parameters[j]).kind,
                ),
        decreases count - i,
    {
        let type_info = &metadata.parameters[i];
        let ghost rest = outcomes.skip(i as int);
        assert(rest[0] == mapped_parameter(metadata@.parameters, i as int));
        assert(rest.skip(1) == outcomes.skip(i + 1));
        match map_type(type_info) {
            None => {
                return Err(
                    Error::UnsupportedType {
                        position: Position::Parameter,
                        index: i,
                        native_type: type_info.name().to_owned(),
                    },
                );
            },
            Some(mapped) => parameters.push(mapped),
        }
        i = i + 1;
    }
    let width = metadata.columns.len();
    let mut columns: Vec<AnyColumn> = Vec::new();
    let mut p: usize = 0;
    while p < width
        invariant
            p <= width,
            width == metadata.columns.len(),
            count == metadata.parameters.len(),
            outcomes == mapped_types(metadata@),
            first_failure(outcomes) == first_failure(outcomes.skip(count + p)),
            columns.len() == p,
            forall|q: int|
                0 <= q < p ==> mapped_column(metadata.columns[q]@) == Ok::<ColumnView, ErrorView>(
                    (#[trigger] columns[q])@,
                ),
        decreases width - p,
    {
        let ghost rest = outcomes.skip(count + p);
        assert(rest[0] == outcomes[count + p]);
        assert(rest.skip(1) == outcomes.skip(count + p + 1));
        match map_column(&metadata.columns[p]) {
            Err(e) => { return Err(e); },
            Ok(column) => columns.push(column),
        }
        p = p + 1;
    }
    let statement = AnyStatement {
        sql: Cow::Borrowed(sql),
        parameters: Some(parameters),
        column_names: metadata.column_names.clone(),
        columns,
    };
    proof {
        let wanted = mapped_statement(sql@, metadata@)->Ok_0;
        assert(statement@.parameters->0 == wanted.parameters->0);
        assert(statement@.columns == wanted.columns);
    }
    Ok(statement)
}

/// What is handed to PostgreSQL with the text of a query.
#[derive(Debug)]
pub struct PgRun {
    /// The native arguments, where the caller bound any.
    pub arguments: Option<PgArguments>,
    /// How many rows are asked for at most; zero asks for all.
    pub limit: u8,
    /// Whether the statement is prepared and kept for later runs.
    pub persistent: bool,
}

/// What `arguments` become in a run: the native form of each, in bind order.
pub open spec fn native_arguments(arguments: Option<Seq<Value>>) -> Option<Seq<PgArgumentView>> {
    match arguments {
        None => None,
        Some(values) => Some(values.map_values(|value: Value| argument_of(value))),
    }
}

impl PgRun {
    /// The native arguments of the run, taken by their views.
    pub open spec fn arguments_view(self) -> Option<Seq<PgArgumentView>> {
        match self.arguments {
            None => None,
            Some(arguments) => Some(arguments@),
        }
    }

    fn new(arguments: Option<AnyArguments<'_>>, limit: u8) -> (run: PgRun)
        ensures
            run.limit == limit,
            run.persistent == arguments.is_some(),
            run.arguments_view() == native_arguments(
                match arguments {
                    None => None,
                    Some(values) => Some(values@),
                },
            ),
    {
        let persistent = arguments.is_some();
        let arguments = match arguments {
            None => None,
            Some(values) => Some(PgArguments::from_any(values)),
        };
        PgRun { arguments, limit, persistent }
    }
}

/// The run that fetches every row of a query: all rows are asked for, and
/// the statement is prepared and kept exactly where arguments were bound.
pub fn fetch_many(arguments: Option<AnyArguments<'_>>) -> (run: PgRun)
    ensures
        run.limit == 0,
        run.persistent == arguments.is_some(),
        run.arguments_view() == native_arguments(
            match arguments {
                None => None,
                Some(values) => Some(values@),
            },
        ),
{
    PgRun::new(arguments, 0)
}

/// What a run hands out, in canonical terms: the summary of a statement, or
/// a row.
pub open spec fn mapped_item(item: Either<PgQueryResult, PgRow>) -> Result<
    Either<AnyQueryResult, RowView>,
    ErrorView,
> {
    match item {
        Either::Left(res) => Ok(
            Either::Left(
                AnyQueryResult { rows_affected: res.rows_affected, last_insert_id: None },
            ),
        ),
        Either::Right(row) => match mapped_row(row@) {
            Ok(out) => Ok(Either::Right(out)),
            Err(e) => Err(e),
        },
    }
}

/// The canonical form of one item of a run of [`fetch_many`].
pub fn map_item(item: Either<PgQueryResult, PgRow>) -> (mapped: Result<
    Either<AnyQueryResult, AnyRow>,
    Error,
>)
    ensures
        match mapped {
            Ok(Either::Left(res)) => mapped_item(item) == Ok::<
                Either<AnyQueryResult, RowView>,
                ErrorView,
            >(Either::Left(res)),
            Ok(Either::Right(row)) => mapped_item(item) == Ok::<
                Either<AnyQueryResult, RowView>,
                ErrorView,
            >(Either::Right(row@)) && row.owns_values(),
            Err(e) => mapped_item(item) == Err::<Either<AnyQueryResult, RowView>, ErrorView>(e@),
        },
{
    match item {
        Either::Left(res) => Ok(Either::Left(map_result(res))),
        Either::Right(row) => match map_row(row) {
            Ok(out) => Ok(Either::Right(out)),
            Err(e) => Err(e),
        },
    }
}

/// The run that fetches at most one row of a query: one row is asked for, so
/// that PostgreSQL stops after it.
pub fn fetch_optional(arguments: Option<AnyArguments<'_>>) -> (run: PgRun)
    ensures
        run.limit == 1,
        run.persistent == arguments.is_some(),
        run.arguments_view() == native_arguments(
            match arguments {
                None => None,
                Some(values) => Some(values@),
            },
        ),
{
    PgRun::new(arguments, 1)
}

/// What a run of [`fetch_optional`] gives, from the first item that it hands
/// out: the row, where that item is one; no row, where the run ends at once
/// or begins with the summary of a statement; the failure, where the backend
/// reported one.
pub open spec fn first_row(first: Result<Option<Either<PgQueryResult, PgRow>>, Error>) -> Result<
    Option<RowView>,
    ErrorView,
> {
    match first {
        Err(e) => Err(e@),
        Ok(Some(Either::Right(row))) => match mapped_row(row@) {
            Ok(out) => Ok(Some(out)),
            Err(e) => Err(e),
        },
        Ok(_) => Ok(None),
    }
}

/// The outcome of a run of [`fetch_optional`], decided by the first item
/// alone: nothing after it is looked at.
pub fn fetch_optional_outcome(first: Result<Option<Either<PgQueryResult, PgRow>>, Error>) -> (outcome:
    Result<Option<AnyRow>, Error>)
    ensures
        match outcome {
            Ok(None) => first_row(first) == Ok::<Option<RowView>, ErrorView>(None),
            Ok(Some(row)) => first_row(first) == Ok::<Option<RowView>, ErrorView>(Some(row@))
                && row.owns_values(),
            Err(e) => first_row(first) == Err::<Option<RowView>, ErrorView>(e@),
        },
{
    match first {
        Err(e) => Err(e),
        Ok(Some(Either::Right(row))) => match map_row(row) {
            Ok(out) => Ok(Some(out)),
            Err(e) => Err(e),
        },
        Ok(_) => Ok(None),
    }
}

/// The schema of a statement. This backend does not offer it, and says so.
pub fn describe(sql: &str) -> (outcome: Result<Describe, Error>)
    ensures
        outcome matches Err(e) && e@ == ErrorView::Unsupported,
{
    Err(Error::Unsupported)
}

/// Whether `row` is what a query that hands its arguments back returns for
/// `arguments`: one column for each argument, in bind order, declared with
/// the type of the argument and storing its value.
pub open spec fn echoes(row: PgRowView, arguments: Seq<PgArgumentView>) -> bool {
    &&& row.columns.len() == arguments.len()
    &&& row.values.len() == arguments.len()
    &&& forall|p: int|
        0 <= p < arguments.len() ==> (#[trigger] row.columns[p]).ordinal == p
            && row.columns[p].pg_type == arguments[p].pg_type
    &&& forall|p: int| 0 <= p < arguments.len() ==> #[trigger] row.values[p] == arguments[p].value
}

/// Canonical values that are bound as native arguments and handed back by
/// the query come out of the row as they went in: each value in its place,
/// each column of the kind of its value.
pub proof fn lemma_echo_round_trip(values: Seq<Value>, row: PgRowView)
    requires
        echoes(row, values.map_values(|value: Value| argument_of(value))),
    ensures
        mapped_row(row) is Ok,
        mapped_row(row)->Ok_0.values == values,
        mapped_row(row)->Ok_0.columns.len() == values.len(),
        forall|p: int|
            0 <= p < values.len() ==> (#[trigger] mapped_row(row)->Ok_0.columns[p]).kind
                == values[p].kind(),
{
    let arguments = values.map_values(|value: Value| argument_of(value));
    let outcomes = mapped_values(row);
    assert forall|p: int| 0 <= p < values.len() implies mapped_value(row, p) == Ok::<
        Value,
        ErrorView,
    >(values[p]) && mapped_column(row.columns[p]) is Ok && mapped_column(
        row.columns[p],
    )->Ok_0.kind == values[p].kind() by {
        assert(arguments[p] == argument_of(values[p]));
        assert(row.columns[p].ordinal == p);
        assert(row.values[p] == arguments[p].value);
    }
    assert forall|p: int| 0 <= p < outcomes.len() implies outcomes[p] is Ok by {
        assert(outcomes[p] == mapped_value(row, p));
    }
    lemma_no_failure(outcomes);
    assert(mapped_row(row)->Ok_0.values =~= values);
}

/// A run that hands out no row gives no row, and no failure: whether it ends
/// at once or hands out summaries alone.
pub proof fn lemma_no_row_fetched(items: Seq<Either<PgQueryResult, PgRow>>)
    requires
        forall|i: int| 0 <= i < items.len() ==> items[i] is Left,
    ensures
        first_row(
            Ok(
                if items.len() == 0 {
                    None
                } else {
                    Some(items[0])
                },
            ),
        ) == Ok::<Option<RowView>, ErrorView>(None),
{
}

/// A run that begins with a row gives what that row maps to, whatever comes
/// after it.
pub proof fn lemma_first_row_fetched(items: Seq<Either<PgQueryResult, PgRow>>)
    requires
        items.len() > 0,
        items[0] is Right,
    ensures
        first_row(Ok(Some(items[0]))) == match mapped_row(items[0]->Right_0@) {
            Ok(out) => Ok::<Option<RowView>, ErrorView>(Some(out)),
            Err(e) => Err::<Option<RowView>, ErrorView>(e),
        },
{
}

/// Where one parameter alone has a type without a canonical counterpart,
/// the statement fails with the failure that names that parameter.
pub proof fn lemma_one_unsupported_parameter(sql: Seq<char>, metadata: PgMetadataView, i: int)
    requires
        metadata.parameters.len() <= usize::MAX,
        0 <= i < metadata.parameters.len(),
        canonical_kind(metadata.parameters[i]) is None,
        forall|j: int|
            0 <= j < metadata.parameters.len() && j != i ==> canonical_kind(
                #[trigger] metadata.parameters[j],
            ) is Some,
        forall|p: int|
            0 <= p < metadata.columns.len() ==> canonical_kind(
                (#[trigger] metadata.columns[p]).pg_type,
            ) is Some,
    ensures
        mapped_statement(sql, metadata) == Err::<StatementView, ErrorView>(
            unsupported(Position::Parameter, i as usize, metadata.parameters[i]),
        ),
{
    let outcomes = mapped_types(metadata);
    assert forall|j: int| 0 <= j < i implies outcomes[j] is Ok by {
        assert(canonical_kind(metadata.parameters[j]) is Some);
    }
    lemma_first_failure_at(outcomes, i);
}

/// Where one column alone has a type without a canonical counterpart, the
/// statement fails with the failure that names the position of that column.
pub proof fn lemma_one_unsupported_column(sql: Seq<char>, metadata: PgMetadataView, p: int)
    requires
        0 <= p < metadata.columns.len(),
        canonical_kind(metadata.columns[p].pg_type) is None,
        forall|j: int|
            0 <= j < metadata.parameters.len() ==> canonical_kind(
                #[trigger] metadata.parameters[j],
            ) is Some,
        forall|q: int|
            0 <= q < metadata.columns.len() && q != p ==> canonical_kind(
                (#[trigger] metadata.columns[q]).pg_type,
            ) is Some,
    ensures
        mapped_statement(sql, metadata) == Err::<StatementView, ErrorView>(
            unsupported(
                Position::Column,
                metadata.columns[p].ordinal,
                metadata.columns[p].pg_type,
            ),
        ),
{
    let outcomes = mapped_types(metadata);
    let count = metadata.parameters.len() as int;
    assert forall|j: int| 0 <= j < count + p implies outcomes[j] is Ok by {
        if j < count {
            assert(canonical_kind(metadata.parameters[j]) is Some);
        } else {
            assert(canonical_kind(metadata.columns[j - count].pg_type) is Some);
        }
    }
    lemma_first_failure_at(outcomes, count + p);
}

/// Where every parameter and every column has a canonical counterpart, the
/// statement is described.
pub proof fn lemma_statement_described(sql: Seq<char>, metadata: PgMetadataView)
    requires
        forall|j: int|
            0 <= j < metadata.parameters.len() ==> canonical_kind(
                #[trigger] metadata.parameters[j],
            ) is Some,
        forall|q: int|
            0 <= q < metadata.columns.len() ==> canonical_kind(
                (#[trigger] metadata.columns[q]).pg_type,
            ) is Some,
    ensures
        mapped_statement(sql, metadata) is Ok,
{
    let outcomes = mapped_types(metadata);
    let count = metadata.parameters.len() as int;
    assert forall|j: int| 0 <= j < outcomes.len() implies outcomes[j] is Ok by {
        if j < count {
            assert(canonical_kind(metadata.parameters[j]) is Some);
        } else {
            assert(canonical_kind(metadata.columns[j - count].pg_type) is Some);
        }
    }
    lemma_no_failure(outcomes);
}

} // verus!
