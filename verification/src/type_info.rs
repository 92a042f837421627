//! Canonical type descriptors.

use vstd::prelude::*;

verus! {

/// The eight portable kinds of SQL value.
#[derive(Clone, Copy, Debug, PartialEq, Eq, Structural)]
pub enum AnyTypeInfoKind {
    Null,
    SmallInt,
    Integer,
    BigInt,
    Real,
    Double,
    Text,
    Blob,
}

/// The declared type of a column or parameter, in canonical terms.
#[derive(Clone, Copy, Debug, PartialEq, Eq, Structural)]
pub struct AnyTypeInfo {
    pub kind: AnyTypeInfoKind,
}

impl AnyTypeInfo {
    /// The kind this descriptor wraps.
    pub fn kind(&self) -> (kind: AnyTypeInfoKind)
        ensures
            kind == self.kind,
    {
        self.kind
    }

    /// Whether this is the type of the absent value.
    pub fn is_null(&self) -> (null: bool)
        ensures
            null == (self.kind == AnyTypeInfoKind::Null),
    {
        self.kind == AnyTypeInfoKind::Null
    }
}

} // verus!
