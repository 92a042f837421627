use std::borrow::Cow;

use sqlx_any::arguments::AnyArguments;
use sqlx_any::column::ColumnNames;
use sqlx_any::error::{DecodeError, Error, Position};
use sqlx_any::postgres::any::{
    decode_datum, describe, fetch_many, fetch_optional, fetch_optional_outcome, map_column,
    map_item, map_result, map_row, map_statement, map_type,
};
use sqlx_any::postgres::arguments::PgArguments;
use sqlx_any::postgres::database::Postgres;
use sqlx_any::postgres::row::{PgColumn, PgQueryResult, PgRow, PgStatementMetadata};
use sqlx_any::postgres::type_info::{PgType, PgTypeInfo};
use sqlx_any::postgres::value::PgDatum;
use sqlx_any::statement::Either;
use sqlx_any::type_info::AnyTypeInfoKind;
use sqlx_any::types::{F32Bits, F64Bits};
use sqlx_any::value::AnyValueKind;

fn metadata(columns: &[(&str, PgType)], parameters: &[PgType]) -> PgStatementMetadata {
    let mut names = ColumnNames::new();
    let mut list = Vec::new();
    for (i, (name, pg_type)) in columns.iter().enumerate() {
        names.insert(name.to_string(), i);
        list.push(PgColumn { ordinal: i, name: name.to_string(), type_info: PgTypeInfo(*pg_type) });
    }
    PgStatementMetadata {
        columns: list,
        column_names: names,
        parameters: parameters.iter().map(|t| PgTypeInfo(*t)).collect(),
    }
}

fn row(columns: &[(&str, PgType)], values: Vec<Option<PgDatum>>) -> PgRow {
    PgRow::new(metadata(columns, &[]), values)
}

/// The row that a query returns which hands its arguments back.
fn echo(arguments: &PgArguments) -> PgRow {
    let mut names = ColumnNames::new();
    let mut columns = Vec::new();
    let mut values = Vec::new();
    for i in 0..arguments.len() {
        let argument = arguments.get(i).unwrap();
        let name = format!("column{}", i + 1);
        names.insert(name.clone(), i);
        columns.push(PgColumn { ordinal: i, name, type_info: argument.type_info });
        values.push(argument.value.clone());
    }
    PgRow::new(PgStatementMetadata { columns, column_names: names, parameters: Vec::new() }, values)
}

#[test]
fn the_backend_is_called_postgresql() {
    assert_eq!(Postgres::name(), "PostgreSQL");
}

#[test]
fn eight_types_have_a_canonical_kind() {
    let kind = |t| map_type(&PgTypeInfo(t)).map(|info| info.kind());
    assert_eq!(kind(PgType::Void), Some(AnyTypeInfoKind::Null));
    assert_eq!(kind(PgType::Int2), Some(AnyTypeInfoKind::SmallInt));
    assert_eq!(kind(PgType::Int4), Some(AnyTypeInfoKind::Integer));
    assert_eq!(kind(PgType::Int8), Some(AnyTypeInfoKind::BigInt));
    assert_eq!(kind(PgType::Float4), Some(AnyTypeInfoKind::Real));
    assert_eq!(kind(PgType::Float8), Some(AnyTypeInfoKind::Double));
    assert_eq!(kind(PgType::Bytea), Some(AnyTypeInfoKind::Blob));
    assert_eq!(kind(PgType::Text), Some(AnyTypeInfoKind::Text));
}

#[test]
fn the_other_types_have_none() {
    let others = [
        PgType::Bool,
        PgType::Char,
        PgType::Name,
        PgType::Oid,
        PgType::Json,
        PgType::Unknown,
        PgType::Varchar,
        PgType::Bpchar,
        PgType::Date,
        PgType::Time,
        PgType::Timestamp,
        PgType::Timestamptz,
        PgType::Numeric,
        PgType::Uuid,
        PgType::Jsonb,
        PgType::DeclareWithOid(600),
    ];
    for t in others {
        assert!(map_type(&PgTypeInfo(t)).is_none());
    }
}

#[test]
fn types_are_named_as_postgresql_lists_them() {
    assert_eq!(PgType::Int4.name(), "INT4");
    assert_eq!(PgType::Char.name(), "\"CHAR\"");
    assert_eq!(PgType::Bpchar.name(), "CHAR");
    assert_eq!(PgType::Timestamptz.name(), "TIMESTAMPTZ");
    assert_eq!(PgType::DeclareWithOid(1).name(), "?");
    assert_eq!(PgTypeInfo(PgType::Void).name(), "VOID");
}

#[test]
fn a_column_keeps_its_position_and_name() {
    let col = PgColumn { ordinal: 3, name: "total".to_string(), type_info: PgTypeInfo(PgType::Int8) };
    let mapped = map_column(&col).unwrap();
    assert_eq!(mapped.ordinal, 3);
    assert_eq!(mapped.name, "total");
    assert_eq!(mapped.type_info.kind(), AnyTypeInfoKind::BigInt);
}

#[test]
fn a_column_of_an_unsupported_type_fails_with_its_position() {
    let col = PgColumn { ordinal: 4, name: "at".to_string(), type_info: PgTypeInfo(PgType::Timestamp) };
    assert!(matches!(
        map_column(&col),
        Err(Error::UnsupportedType { position: Position::Column, index: 4, native_type })
            if native_type == "TIMESTAMP"
    ));
}

#[test]
fn a_summary_keeps_the_count_and_has_no_identifier() {
    let mapped = map_result(PgQueryResult { rows_affected: 42 });
    assert_eq!(mapped.rows_affected, 42);
    assert_eq!(mapped.last_insert_id, None);
    assert_eq!(map_result(PgQueryResult { rows_affected: u64::MAX }).rows_affected, u64::MAX);
}

#[test]
fn select_an_integer_and_a_null_text() {
    // SELECT 1::int4, NULL::text
    let native = row(
        &[("int4", PgType::Int4), ("text", PgType::Text)],
        vec![Some(PgDatum::Int4(1)), None],
    );
    let outcome = fetch_optional_outcome(Ok(Some(Either::Right(native)))).unwrap();
    let row = outcome.unwrap();
    let columns: Vec<_> = row.columns().iter().map(|c| (c.ordinal(), c.type_info().kind())).collect();
    assert_eq!(columns, vec![(0, AnyTypeInfoKind::Integer), (1, AnyTypeInfoKind::Text)]);
    assert!(matches!(row.try_get_raw(0usize).unwrap().kind, AnyValueKind::Integer(1)));
    assert!(matches!(row.try_get_raw(1usize).unwrap().kind, AnyValueKind::Null));
    assert_eq!(row.try_get::<Option<String>, _>(1usize).unwrap(), None);
    assert_eq!(row.try_get::<i32, _>(0usize).unwrap(), 1);
    assert_eq!(row.try_get::<i32, _>("int4").unwrap(), 1);
}

#[test]
fn a_row_of_every_kind_is_mapped_value_by_value() {
    let native = row(
        &[
            ("a", PgType::Int2),
            ("b", PgType::Int4),
            ("c", PgType::Int8),
            ("d", PgType::Float4),
            ("e", PgType::Float8),
            ("f", PgType::Text),
            ("g", PgType::Bytea),
            ("h", PgType::Void),
        ],
        vec![
            Some(PgDatum::Int2(-1)),
            Some(PgDatum::Int4(2)),
            Some(PgDatum::Int8(-3)),
            Some(PgDatum::Float4(4.5f32.to_bits())),
            Some(PgDatum::Float8(5.25f64.to_bits())),
            Some(PgDatum::Text("six".to_string())),
            Some(PgDatum::Bytea(vec![7])),
            Some(PgDatum::Bool(true)),
        ],
    );
    let row = map_row(native).unwrap();
    assert_eq!(row.len(), 8);
    assert!(matches!(row.try_get_raw("a").unwrap().kind, AnyValueKind::SmallInt(-1)));
    assert!(matches!(row.try_get_raw("b").unwrap().kind, AnyValueKind::Integer(2)));
    assert!(matches!(row.try_get_raw("c").unwrap().kind, AnyValueKind::BigInt(-3)));
    assert!(matches!(row.try_get_raw("d").unwrap().kind, AnyValueKind::Real(b) if f32::from_bits(b) == 4.5));
    assert!(matches!(row.try_get_raw("e").unwrap().kind, AnyValueKind::Double(b) if f64::from_bits(b) == 5.25));
    assert!(matches!(&row.try_get_raw("f").unwrap().kind, AnyValueKind::Text(Cow::Owned(s)) if s == "six"));
    assert!(matches!(&row.try_get_raw("g").unwrap().kind, AnyValueKind::Blob(Cow::Owned(b)) if *b == vec![7u8]));
    // A column declared VOID holds the absent value, whatever its slot stores.
    assert!(matches!(row.try_get_raw("h").unwrap().kind, AnyValueKind::Null));
    assert_eq!(row.columns()[7].type_info().kind(), AnyTypeInfoKind::Null);
}

#[test]
fn a_null_slot_is_the_absent_value_whatever_the_column_declares() {
    let native = row(
        &[("a", PgType::Int8), ("b", PgType::Bytea), ("c", PgType::Float8)],
        vec![None, None, None],
    );
    let row = map_row(native).unwrap();
    for i in 0..3usize {
        assert!(row.try_get_raw(i).unwrap().is_null());
    }
    assert_eq!(row.columns()[0].type_info().kind(), AnyTypeInfoKind::BigInt);
    assert_eq!(row.try_get::<Option<i64>, _>("a").unwrap(), None);
}

#[test]
fn a_row_with_an_unsupported_column_is_not_mapped() {
    let native = row(
        &[("a", PgType::Int4), ("b", PgType::Uuid), ("c", PgType::Bool)],
        vec![Some(PgDatum::Int4(1)), None, Some(PgDatum::Bool(true))],
    );
    assert!(matches!(
        map_row(native),
        Err(Error::UnsupportedType { position: Position::Column, index: 1, native_type })
            if native_type == "UUID"
    ));
}

#[test]
fn a_value_that_is_not_stored_as_declared_fails_with_its_position() {
    let native = row(
        &[("a", PgType::Int4), ("b", PgType::Int4)],
        vec![Some(PgDatum::Int4(1)), Some(PgDatum::Text("2".to_string()))],
    );
    assert!(matches!(
        map_row(native),
        Err(Error::ColumnDecode {
            index: 1,
            source: DecodeError::MalformedValue { declared: AnyTypeInfoKind::Integer },
        })
    ));
}

#[test]
fn decode_datum_reads_by_the_declared_kind() {
    assert!(matches!(
        decode_datum(AnyTypeInfoKind::BigInt, &PgDatum::Int8(9)),
        Ok(AnyValueKind::BigInt(9))
    ));
    assert!(matches!(
        decode_datum(AnyTypeInfoKind::BigInt, &PgDatum::Int4(9)),
        Err(DecodeError::MalformedValue { declared: AnyTypeInfoKind::BigInt })
    ));
    assert!(matches!(
        decode_datum(AnyTypeInfoKind::Null, &PgDatum::Int4(9)),
        Ok(AnyValueKind::Null)
    ));
}

#[test]
fn an_empty_row_is_mapped_to_an_empty_row() {
    let row = map_row(row(&[], vec![])).unwrap();
    assert_eq!(row.len(), 0);
}

#[test]
fn a_native_row_that_does_not_fit_is_refused() {
    assert!(PgRow::try_new(metadata(&[("a", PgType::Int4)], &[]), vec![]).is_none());
    let mut bad_ordinal = metadata(&[("a", PgType::Int4)], &[]);
    bad_ordinal.columns[0].ordinal = 1;
    assert!(PgRow::try_new(bad_ordinal, vec![None]).is_none());
    let mut bad_name = metadata(&[("a", PgType::Int4)], &[]);
    bad_name.column_names.insert("b".to_string(), 1);
    assert!(PgRow::try_new(bad_name, vec![None]).is_none());
    let good = PgRow::try_new(metadata(&[("a", PgType::Int4)], &[]), vec![None]).unwrap();
    assert_eq!(good.len(), 1);
    assert_eq!(good.columns()[0].name, "a");
    assert_eq!(good.column_names().get("a"), Some(0));
    assert!(good.slot(0).is_none());
}

#[test]
fn fetch_many_asks_for_all_rows() {
    let run = fetch_many(None);
    assert!(run.arguments.is_none());
    assert_eq!(run.limit, 0);
    assert!(!run.persistent);

    let mut args = AnyArguments::default();
    args.add(5i32);
    args.add("x");
    let run = fetch_many(Some(args));
    assert_eq!(run.limit, 0);
    assert!(run.persistent);
    let native = run.arguments.unwrap();
    assert_eq!(native.len(), 2);
    assert!(matches!(native.get(0).unwrap().value, Some(PgDatum::Int4(5))));
    assert!(matches!(&native.get(1).unwrap().value, Some(PgDatum::Text(t)) if t == "x"));
}

#[test]
fn fetch_many_with_no_value_bound_is_still_persistent() {
    let run = fetch_many(Some(AnyArguments::default()));
    assert!(run.persistent);
    assert_eq!(run.arguments.unwrap().len(), 0);
}

#[test]
fn fetch_optional_asks_for_one_row() {
    let run = fetch_optional(None);
    assert!(run.arguments.is_none());
    assert_eq!(run.limit, 1);
    assert!(!run.persistent);

    let mut args = AnyArguments::default();
    args.add(None::<i32>);
    let run = fetch_optional(Some(args));
    assert_eq!(run.limit, 1);
    assert!(run.persistent);
    let native = run.arguments.unwrap();
    assert_eq!(native.get(0).unwrap().type_info.0, PgType::Void);
    assert!(native.get(0).unwrap().value.is_none());
}

#[test]
fn items_are_mapped_one_by_one() {
    assert!(matches!(
        map_item(Either::Left(PgQueryResult { rows_affected: 3 })),
        Ok(Either::Left(res)) if res.rows_affected == 3 && res.last_insert_id.is_none()
    ));
    let native = row(&[("a", PgType::Int2)], vec![Some(PgDatum::Int2(8))]);
    assert!(matches!(
        map_item(Either::Right(native)),
        Ok(Either::Right(row)) if row.try_get::<i16, _>("a").unwrap() == 8
    ));
    let native = row(&[("a", PgType::Json)], vec![None]);
    assert!(matches!(
        map_item(Either::Right(native)),
        Err(Error::UnsupportedType { position: Position::Column, index: 0, native_type })
            if native_type == "JSON"
    ));
}

#[test]
fn no_item_is_no_row() {
    assert!(matches!(fetch_optional_outcome(Ok(None)), Ok(None)));
}

#[test]
fn a_summary_first_is_no_row() {
    let first = Either::Left(PgQueryResult { rows_affected: 0 });
    assert!(matches!(fetch_optional_outcome(Ok(Some(first))), Ok(None)));
}

#[test]
fn a_failure_of_the_backend_passes_through() {
    let failure = Error::Protocol("connection reset".to_string());
    assert!(matches!(
        fetch_optional_outcome(Err(failure)),
        Err(Error::Protocol(message)) if message == "connection reset"
    ));
}

#[test]
fn a_first_row_that_cannot_be_mapped_is_a_failure() {
    let native = row(&[("a", PgType::Numeric)], vec![None]);
    assert!(matches!(
        fetch_optional_outcome(Ok(Some(Either::Right(native)))),
        Err(Error::UnsupportedType { position: Position::Column, index: 0, native_type })
            if native_type == "NUMERIC"
    ));
}

#[test]
fn a_statement_is_described_in_canonical_terms() {
    let sql = String::from("SELECT a, b FROM t WHERE c = $1 AND d = $2");
    let native = metadata(&[("a", PgType::Int8), ("b", PgType::Text)], &[PgType::Int4, PgType::Bytea]);
    let statement = map_statement(&sql, &native).unwrap();
    assert!(matches!(statement.sql, Cow::Borrowed("SELECT a, b FROM t WHERE c = $1 AND d = $2")));
    let parameters: Vec<_> = statement.parameters.unwrap().iter().map(|t| t.kind()).collect();
    assert_eq!(parameters, vec![AnyTypeInfoKind::Integer, AnyTypeInfoKind::Blob]);
    let columns: Vec<_> = statement
        .columns
        .iter()
        .map(|c| (c.ordinal, c.name.clone(), c.type_info.kind()))
        .collect();
    assert_eq!(
        columns,
        vec![
            (0, "a".to_string(), AnyTypeInfoKind::BigInt),
            (1, "b".to_string(), AnyTypeInfoKind::Text),
        ]
    );
    assert_eq!(statement.column_names.get("b"), Some(1));
    assert_eq!(statement.column_names.get("c"), None);
}

#[test]
fn a_statement_without_parameters_has_an_empty_list() {
    let native = metadata(&[("a", PgType::Int4)], &[]);
    let statement = map_statement("SELECT 1", &native).unwrap();
    assert_eq!(statement.parameters.map(|p| p.len()), Some(0));
}

#[test]
fn an_unsupported_parameter_fails_the_statement() {
    let native = metadata(&[("a", PgType::Int4)], &[PgType::Int4, PgType::Bool, PgType::Text]);
    assert!(matches!(
        map_statement("SELECT a FROM t WHERE b = $2", &native),
        Err(Error::UnsupportedType { position: Position::Parameter, index: 1, native_type })
            if native_type == "BOOL"
    ));
}

#[test]
fn an_unsupported_column_fails_the_statement() {
    let native = metadata(
        &[("a", PgType::Int4), ("b", PgType::Text), ("c", PgType::Date)],
        &[PgType::Int4],
    );
    assert!(matches!(
        map_statement("SELECT a, b, c FROM t WHERE a = $1", &native),
        Err(Error::UnsupportedType { position: Position::Column, index: 2, native_type })
            if native_type == "DATE"
    ));
}

#[test]
fn of_several_unsupported_types_the_first_parameter_is_named() {
    let native = metadata(&[("a", PgType::Uuid)], &[PgType::Jsonb, PgType::Oid]);
    assert!(matches!(
        map_statement("SELECT a FROM t", &native),
        Err(Error::UnsupportedType { position: Position::Parameter, index: 0, native_type })
            if native_type == "JSONB"
    ));
}

#[test]
fn describe_is_not_offered() {
    assert!(matches!(describe("SELECT 1"), Err(Error::Unsupported)));
}

#[test]
fn an_integer_and_a_text_come_back_in_order() {
    let mut args = AnyArguments::default();
    args.add(5i32);
    args.add("x");
    let native: PgArguments = args.convert_into();
    let row = map_row(echo(&native)).unwrap();
    assert_eq!(row.len(), 2);
    assert!(matches!(row.try_get_raw(0usize).unwrap().kind, AnyValueKind::Integer(5)));
    assert!(matches!(&row.try_get_raw(1usize).unwrap().kind, AnyValueKind::Text(t) if t == "x"));
    assert_eq!(row.try_get::<i32, _>(0usize).unwrap(), 5);
    assert_eq!(row.try_get::<String, _>(1usize).unwrap(), "x");
}

#[test]
fn every_kind_comes_back_as_it_went() {
    let mut args = AnyArguments::default();
    args.add(None::<i32>);
    args.add(i16::MIN);
    args.add(i32::MAX);
    args.add(i64::MIN);
    args.add(F32Bits(f32::NAN.to_bits()));
    args.add(F64Bits(f64::NEG_INFINITY.to_bits()));
    args.add(String::from("héllo"));
    args.add(vec![0u8, 255]);
    let native: PgArguments = args.convert_into();
    let row = map_row(echo(&native)).unwrap();
    let kinds: Vec<_> = row.columns().iter().map(|c| c.type_info().kind()).collect();
    assert_eq!(
        kinds,
        vec![
            AnyTypeInfoKind::Null,
            AnyTypeInfoKind::SmallInt,
            AnyTypeInfoKind::Integer,
            AnyTypeInfoKind::BigInt,
            AnyTypeInfoKind::Real,
            AnyTypeInfoKind::Double,
            AnyTypeInfoKind::Text,
            AnyTypeInfoKind::Blob,
        ]
    );
    assert_eq!(row.try_get::<Option<i32>, _>(0usize).unwrap(), None);
    assert_eq!(row.try_get::<i16, _>(1usize).unwrap(), i16::MIN);
    assert_eq!(row.try_get::<i32, _>(2usize).unwrap(), i32::MAX);
    assert_eq!(row.try_get::<i64, _>(3usize).unwrap(), i64::MIN);
    assert_eq!(row.try_get::<F32Bits, _>(4usize).unwrap().0, f32::NAN.to_bits());
    assert_eq!(f64::from_bits(row.try_get::<F64Bits, _>(5usize).unwrap().0), f64::NEG_INFINITY);
    assert_eq!(row.try_get::<String, _>(6usize).unwrap(), "héllo");
    assert_eq!(row.try_get::<Vec<u8>, _>(7usize).unwrap(), vec![0u8, 255]);
    // A small integer that went in reads as a wider integer when it comes back.
    assert_eq!(row.try_get::<i32, _>(1usize).unwrap(), -32768);
}
