//! The failures of the canonical layer.

use vstd::prelude::*;
use crate::type_info::AnyTypeInfoKind;

verus! {

/// Why a stored value could not be read as the requested type.
#[derive(Clone, Copy, Debug, PartialEq, Eq, Structural)]
pub enum DecodeError {
    /// The requested type does not accept values of the stored kind.
    MismatchedTypes { requested: AnyTypeInfoKind, stored: AnyTypeInfoKind },
    /// A native value is not stored in the form that its column declares.
    MalformedValue { declared: AnyTypeInfoKind },
}

/// Whether an unsupported type was met among the parameters or the columns.
#[derive(Clone, Copy, Debug, PartialEq, Eq, Structural)]
pub enum Position {
    Parameter,
    Column,
}

/// Everything that an operation of this crate can fail with.
#[derive(Debug)]
pub enum Error {
    /// A connection that cannot be made as it was asked for.
    Configuration(String),
    /// A failure of the connection or of the wire protocol, as the backend
    /// reported it.
    Protocol(String),
    /// A position at or beyond the width of the row.
    ColumnIndexOutOfBounds { index: usize, len: usize },
    /// No column of the row has this name.
    ColumnNotFound(String),
    /// The value of the column at `index` could not be decoded.
    ColumnDecode { index: usize, source: DecodeError },
    /// A native type that has no canonical counterpart.
    UnsupportedType { position: Position, index: usize, native_type: String },
    /// The backend does not offer the operation.
    Unsupported,
}

/// An [`Error`] with each text taken as a sequence of characters.
pub enum ErrorView {
    Configuration(Seq<char>),
    Protocol(Seq<char>),
    ColumnIndexOutOfBounds { index: usize, len: usize },
    ColumnNotFound(Seq<char>),
    ColumnDecode { index: usize, source: DecodeError },
    UnsupportedType { position: Position, index: usize, native_type: Seq<char> },
    Unsupported,
}

impl View for Error {
    type V = ErrorView;

    open spec fn view(&self) -> ErrorView {
        match self {
            Error::Configuration(message) => ErrorView::Configuration(message@),
            Error::Protocol(message) => ErrorView::Protocol(message@),
            Error::ColumnIndexOutOfBounds { index, len } => ErrorView::ColumnIndexOutOfBounds {
                index: *index,
                len: *len,
            },
            Error::ColumnNotFound(name) => ErrorView::ColumnNotFound(name@),
            Error::ColumnDecode { index, source } => ErrorView::ColumnDecode {
                index: *index,
                source: *source,
            },
            Error::UnsupportedType { position, index, native_type } => ErrorView::UnsupportedType {
                position: *position,
                index: *index,
                native_type: native_type@,
            },
            Error::Unsupported => ErrorView::Unsupported,
        }
    }
}

/// The first failure among `outcomes`, if any of them is one.
pub open spec fn first_failure<T>(outcomes: Seq<Result<T, ErrorView>>) -> Option<ErrorView>
    decreases outcomes.len(),
{
    if outcomes.len() == 0 {
        None
    } else {
        match outcomes[0] {
            Err(e) => Some(e),
            Ok(_) => first_failure(outcomes.skip(1)),
        }
    }
}

/// Where the outcome at position `i` is the first failure, it is the failure
/// of the whole.
pub proof fn lemma_first_failure_at<T>(outcomes: Seq<Result<T, ErrorView>>, i: int)
    requires
        0 <= i < outcomes.len(),
        outcomes[i] is Err,
        forall|j: int| 0 <= j < i ==> outcomes[j] is Ok,
    ensures
        first_failure(outcomes) == Some(outcomes[i]->Err_0),
    decreases i,
{
    if i > 0 {
        lemma_first_failure_at(outcomes.skip(1), i - 1);
    }
}

/// Where no outcome is a failure, the whole has none.
pub proof fn lemma_no_failure<T>(outcomes: Seq<Result<T, ErrorView>>)
    requires
        forall|j: int| 0 <= j < outcomes.len() ==> outcomes[j] is Ok,
    ensures
        first_failure(outcomes) is None,
    decreases outcomes.len(),
{
    if outcomes.len() > 0 {
        lemma_no_failure(outcomes.skip(1));
    }
}

} // verus!
