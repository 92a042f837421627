//! The types of PostgreSQL that this crate knows by name.

use vstd::prelude::*;

verus! {

/// A type of PostgreSQL.
#[derive(Clone, Copy, Debug, PartialEq, Eq, Structural)]
pub enum PgType {
    Bool,
    Bytea,
    Char,
    Name,
    Int8,
    Int2,
    Int4,
    Text,
    Oid,
    Json,
    Float4,
    Float8,
    Unknown,
    Varchar,
    Bpchar,
    Date,
    Time,
    Timestamp,
    Timestamptz,
    Numeric,
    Uuid,
    Jsonb,
    Void,
    /// A type that is known by its object identifier alone.
    DeclareWithOid(u32),
}

/// The type of a column or a parameter, as PostgreSQL reports it.
#[derive(Clone, Copy, Debug, PartialEq, Eq, Structural)]
pub struct PgTypeInfo(pub PgType);

impl PgType {
    /// The name under which PostgreSQL lists the type.
    pub open spec fn spec_name(self) -> Seq<char> {
        match self {
            PgType::Bool => "BOOL"@,
            PgType::Bytea => "BYTEA"@,
            PgType::Char => "\"CHAR\""@,
            PgType::Name => "NAME"@,
            PgType::Int8 => "INT8"@,
            PgType::Int2 => "INT2"@,
            PgType::Int4 => "INT4"@,
            PgType::Text => "TEXT"@,
            PgType::Oid => "OID"@,
            PgType::Json => "JSON"@,
            PgType::Float4 => "FLOAT4"@,
            PgType::Float8 => "FLOAT8"@,
            PgType::Unknown => "UNKNOWN"@,
            PgType::Varchar => "VARCHAR"@,
            PgType::Bpchar => "CHAR"@,
            PgType::Date => "DATE"@,
            PgType::Time => "TIME"@,
            PgType::Timestamp => "TIMESTAMP"@,
            PgType::Timestamptz => "TIMESTAMPTZ"@,
            PgType::Numeric => "NUMERIC"@,
            PgType::Uuid => "UUID"@,
            PgType::Jsonb => "JSONB"@,
            PgType::Void => "VOID"@,
            PgType::DeclareWithOid(_) => "?"@,
        }
    }

    /// The name under which PostgreSQL lists the type.
    pub fn name(&self) -> (name: &'static str)
        ensures
            name@ == self.spec_name(),
    {
        match self {
            PgType::Bool => "BOOL",
            PgType::Bytea => "BYTEA",
            PgType::Char => "\"CHAR\"",
            PgType::Name => "NAME",
            PgType::Int8 => "INT8",
            PgType::Int2 => "INT2",
            PgType::Int4 => "INT4",
            PgType::Text => "TEXT",
            PgType::Oid => "OID",
            PgType::Json => "JSON",
            PgType::Float4 => "FLOAT4",
            PgType::Float8 => "FLOAT8",
            PgType::Unknown => "UNKNOWN",
            PgType::Varchar => "VARCHAR",
            PgType::Bpchar => "CHAR",
            PgType::Date => "DATE",
            PgType::Time => "TIME",
            PgType::Timestamp => "TIMESTAMP",
            PgType::Timestamptz => "TIMESTAMPTZ",
            PgType::Numeric => "NUMERIC",
            PgType::Uuid => "UUID",
            PgType::Jsonb => "JSONB",
            PgType::Void => "VOID",
            PgType::DeclareWithOid(_) => "?",
        }
    }
}

impl PgTypeInfo {
    /// The name of the type.
    pub fn name(&self) -> (name: &'static str)
        ensures
            name@ == self.0.spec_name(),
    {
        self.0.name()
    }
}

} // verus!
