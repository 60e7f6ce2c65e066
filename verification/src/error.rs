//! Failures of the data-access layer.

use vstd::prelude::*;
use vstd::std_specs::convert::FromSpecImpl;

verus! {

/// A stored name that names no variant of the enum it is read as.
#[derive(Clone, Copy, Debug, PartialEq, Eq, Structural)]
pub enum ParseError {
    VariantNotFound,
}

/// A failure on the storage side of an operation. The layer hands it upward
/// as it is and never inspects backend codes.
#[derive(Debug, PartialEq, Eq)]
pub enum BackendError {
    /// A read that needs a row found none.
    RowNotFound,
    /// A returned row lacks the named column.
    ColumnNotFound(String),
    /// The named column of a returned row holds a value that the record
    /// cannot take.
    ColumnDecode(String),
    /// The backend itself reported a failure, such as a violated constraint
    /// or a lost connection; the text is its message.
    Database(String),
}

/// What a [`BackendError`] holds, with text as sequences of characters.
pub ghost enum BackendErrorView {
    RowNotFound,
    ColumnNotFound(Seq<char>),
    ColumnDecode(Seq<char>),
    Database(Seq<char>),
}

impl View for BackendError {
    type V = BackendErrorView;

    open spec fn view(&self) -> BackendErrorView {
        match self {
            BackendError::RowNotFound => BackendErrorView::RowNotFound,
            BackendError::ColumnNotFound(c) => BackendErrorView::ColumnNotFound(c@),
            BackendError::ColumnDecode(c) => BackendErrorView::ColumnDecode(c@),
            BackendError::Database(m) => BackendErrorView::Database(m@),
        }
    }
}

/// Why an insert or a read did not produce its record.
#[derive(Debug, PartialEq, Eq)]
pub enum ChangeError {
    /// The storage layer failed.
    DBError(BackendError),
    /// The proposed changes were rejected before any statement was built; the
    /// messages name every rule that failed.
    ValidationError(Vec<&'static str>),
}

/// What a [`ChangeError`] holds, with text as sequences of characters.
pub ghost enum ChangeErrorView {
    DBError(BackendErrorView),
    ValidationError(Seq<Seq<char>>),
}

impl View for ChangeError {
    type V = ChangeErrorView;

    open spec fn view(&self) -> ChangeErrorView {
        match self {
            ChangeError::DBError(e) => ChangeErrorView::DBError(e@),
            ChangeError::ValidationError(m) => ChangeErrorView::ValidationError(
                crate::value::names_view(m@),
            ),
        }
    }
}

impl From<BackendError> for ChangeError {
    fn from(value: BackendError) -> (r: ChangeError) {
        ChangeError::DBError(value)
    }
}

impl FromSpecImpl<BackendError> for ChangeError {
    open spec fn obeys_from_spec() -> bool {
        true
    }

    open spec fn from_spec(value: BackendError) -> ChangeError {
        ChangeError::DBError(value)
    }
}

} // verus!
