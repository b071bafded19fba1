//! The failures an intake can end in.

use crate::text::same_text;
use vstd::prelude::*;
use vstd::std_specs::convert::FromSpecImpl;
use vstd::string::StringExecFns;

verus! {

/// What went wrong in the store.
#[derive(Debug, Clone, Copy, PartialEq, Eq, Structural)]
pub enum StorageErrorKind {
    /// The store could not be reached.
    Connectivity,
    /// A uniqueness or reference constraint refused a write.
    Constraint,
    /// A concurrent transaction got in the way.
    Conflict,
    /// A table has no room for another row.
    Capacity,
    /// A transaction was opened twice, or closed while none was open.
    Transaction,
    /// Anything else the store reports.
    Other,
}

/// The kind of a failure that a database reported itself: a constraint that
/// was violated, else a conflict where the SQLSTATE code is that of a
/// serialization failure (40001) or of a deadlock (40P01), else other.
pub open spec fn reported_kind(constraint_violated: bool, code: Option<Seq<char>>) -> StorageErrorKind {
    if constraint_violated {
        StorageErrorKind::Constraint
    } else if code == Some("40001"@) || code == Some("40P01"@) {
        StorageErrorKind::Conflict
    } else {
        StorageErrorKind::Other
    }
}

impl StorageErrorKind {
    /// The kind of a failure that a database reported itself, from whether a
    /// constraint was violated and from the SQLSTATE code, if there is one.
    pub fn of_report(constraint_violated: bool, code: Option<&str>) -> (kind: StorageErrorKind)
        ensures
            kind == reported_kind(
                constraint_violated,
                match code {
                    Some(text) => Some(text@),
                    None => None,
                },
            ),
    {
        if constraint_violated {
            StorageErrorKind::Constraint
        } else {
            match code {
                Some(text) => if same_text(text, "40001") || same_text(text, "40P01") {
                    StorageErrorKind::Conflict
                } else {
                    StorageErrorKind::Other
                },
                None => StorageErrorKind::Other,
            }
        }
    }
}

/// A failure of the store, with the store's own words for it.
#[derive(Debug)]
pub struct StorageError {
    pub kind: StorageErrorKind,
    pub detail: String,
}

/// What a storage error holds.
pub struct StorageErrorView {
    pub kind: StorageErrorKind,
    pub detail: Seq<char>,
}

impl View for StorageError {
    type V = StorageErrorView;

    open spec fn view(&self) -> StorageErrorView {
        StorageErrorView { kind: self.kind, detail: self.detail@ }
    }
}

impl Clone for StorageError {
    fn clone(&self) -> (r: Self)
        ensures
            r == *self,
    {
        StorageError { kind: self.kind, detail: self.detail.clone() }
    }
}

impl StorageError {
    /// A storage error of the given kind about the given table or operation.
    pub fn new(kind: StorageErrorKind, detail: &str) -> (r: Self)
        ensures
            r@ == (StorageErrorView { kind, detail: detail@ }),
    {
        StorageError { kind, detail: detail.to_owned() }
    }
}

/// How an intake fails.
#[derive(Debug)]
pub enum ApplicationError {
    /// The store failed; nothing was retried.
    DatabaseError(StorageError),
    /// The payload did not pass a check.
    ValidationError(String),
    /// A status, urgency or recommended pack is missing from the reference data.
    NotFound(String),
    /// Anything that fits none of the above.
    UnexpectedError,
}

/// What an application error holds.
pub enum ApplicationErrorView {
    DatabaseError(StorageErrorView),
    ValidationError(Seq<char>),
    NotFound(Seq<char>),
    UnexpectedError,
}

impl View for ApplicationError {
    type V = ApplicationErrorView;

    open spec fn view(&self) -> ApplicationErrorView {
        match self {
            ApplicationError::DatabaseError(e) => ApplicationErrorView::DatabaseError(e@),
            ApplicationError::ValidationError(m) => ApplicationErrorView::ValidationError(m@),
            ApplicationError::NotFound(m) => ApplicationErrorView::NotFound(m@),
            ApplicationError::UnexpectedError => ApplicationErrorView::UnexpectedError,
        }
    }
}

impl Clone for ApplicationError {
    fn clone(&self) -> (r: Self)
        ensures
            r == *self,
    {
        match self {
            ApplicationError::DatabaseError(e) => ApplicationError::DatabaseError(e.clone()),
            ApplicationError::ValidationError(m) => ApplicationError::ValidationError(m.clone()),
            ApplicationError::NotFound(m) => ApplicationError::NotFound(m.clone()),
            ApplicationError::UnexpectedError => ApplicationError::UnexpectedError,
        }
    }
}

impl From<StorageError> for ApplicationError {
    fn from(error: StorageError) -> (r: Self)
        ensures
            r@ == ApplicationErrorView::DatabaseError(error@),
    {
        ApplicationError::DatabaseError(error)
    }
}

impl FromSpecImpl<StorageError> for ApplicationError {
    open spec fn obeys_from_spec() -> bool {
        true
    }

    open spec fn from_spec(error: StorageError) -> ApplicationError {
        ApplicationError::DatabaseError(error)
    }
}

impl ApplicationErrorView {
    /// The text that describes the error to a reader.
    pub open spec fn message(self) -> Seq<char> {
        match self {
            ApplicationErrorView::DatabaseError(e) => "Database error: "@ + e.detail,
            ApplicationErrorView::ValidationError(m) => "Validation error: "@ + m,
            ApplicationErrorView::NotFound(m) => "Not found: "@ + m,
            ApplicationErrorView::UnexpectedError => "An unexpected error occurred"@,
        }
    }
}

impl ApplicationError {
    /// The text that describes the error to a reader.
    pub fn message(&self) -> (text: String)
        ensures
            text@ == self@.message(),
    {
        match self {
            ApplicationError::DatabaseError(e) => "Database error: ".to_owned().concat(
                e.detail.as_str(),
            ),
            ApplicationError::ValidationError(m) => "Validation error: ".to_owned().concat(
                m.as_str(),
            ),
            ApplicationError::NotFound(m) => "Not found: ".to_owned().concat(m.as_str()),
            ApplicationError::UnexpectedError => "An unexpected error occurred".to_owned(),
        }
    }
}

} // verus!
