pub mod token;
pub mod user;

use vstd::prelude::*;

verus! {

/// The SQLSTATE code the database reports for a duplicate key.
pub open spec fn unique_violation_code() -> Seq<char> {
    "23505"@
}

/// What a failed database operation reported, in the terms the error
/// classification reads.
pub enum DbFailureKind {
    /// The query was expected to return a row and returned none.
    RowNotFound,
    /// The database server refused the statement, with the SQLSTATE code it
    /// gave, if any, and its own description of the refusal.
    Database { code: Option<String>, detail: String },
    /// Any other failure (connection, protocol, decoding, ...).
    Other,
}

/// A failed database operation: its kind and its description.
pub struct DbFailure {
    pub kind: DbFailureKind,
    pub message: String,
}

/// A read that failed.
#[derive(Debug)]
pub enum SelectError {
    /// The requested row does not exist.
    NoDataFound(String),
    /// Any other failure.
    Other(String),
}

/// A write that failed.
#[derive(Debug)]
pub enum InsertError {
    /// The row would repeat a value that must be unique.
    UniqueViolation(String),
    /// Any other failure.
    Other(String),
}

/// A deletion that failed.
#[derive(Debug)]
pub enum DeleteError {
    Other(String),
}

/// Whether the failure is the database refusing a duplicate key.
pub open spec fn is_unique_violation(kind: DbFailureKind) -> bool {
    kind matches DbFailureKind::Database { code: Some(c), .. } && c@ == unique_violation_code()
}

/// A failure counts as a duplicate key exactly when the database refused the
/// statement with the SQLSTATE code `"23505"`: no other code (such as
/// `"23502"`, a not-null violation), no missing code and no other kind of
/// failure does.
pub proof fn lemma_unique_violation_code(kind: DbFailureKind)
    ensures
        is_unique_violation(kind) <==> (kind matches DbFailureKind::Database { code: Some(c), .. }
            && c@ == "23505"@),
{
}

impl SelectError {
    /// A missing row is reported as such; everything else is another failure.
    pub fn from_failure(failure: DbFailure) -> (res: SelectError)
        ensures
            failure.kind is RowNotFound ==> res == SelectError::NoDataFound(failure.message),
            !(failure.kind is RowNotFound) ==> res == SelectError::Other(failure.message),
    {
        match failure.kind {
            DbFailureKind::RowNotFound => SelectError::NoDataFound(failure.message),
            _ => SelectError::Other(failure.message),
        }
    }

    /// The error's description: a fixed text for a missing row, the
    /// underlying description otherwise.
    pub fn to_string(&self) -> (res: String)
        ensures
            self matches SelectError::NoDataFound(_) ==> res@ == "data not found"@,
            self matches SelectError::Other(m) ==> res@ == m@,
    {
        match self {
            SelectError::NoDataFound(_) => "data not found".to_owned(),
            SelectError::Other(m) => m.clone(),
        }
    }
}

impl InsertError {
    /// A database refusal with the duplicate-key code is a unique violation,
    /// described by the database's own words; everything else is another
    /// failure.
    pub fn from_failure(failure: DbFailure) -> (res: InsertError)
        ensures
            is_unique_violation(failure.kind) ==> res == InsertError::UniqueViolation(
                failure.kind->detail,
            ),
            !is_unique_violation(failure.kind) ==> res == InsertError::Other(failure.message),
            (failure.kind matches DbFailureKind::Database { code: Some(c), detail } && c@
                == "23505"@) ==> res == InsertError::UniqueViolation(failure.kind->detail),
            !(failure.kind matches DbFailureKind::Database { code: Some(c), .. } && c@ == "23505"@)
                ==> res == InsertError::Other(failure.message),
    {
        proof {
            lemma_unique_violation_code(failure.kind);
        }
        match failure.kind {
            DbFailureKind::Database { code: Some(code), detail } => {
                if code == "23505".to_owned() {
                    InsertError::UniqueViolation(detail)
                } else {
                    InsertError::Other(failure.message)
                }
            },
            _ => InsertError::Other(failure.message),
        }
    }

    /// The error's description: a fixed text for a unique violation, the
    /// underlying description otherwise.
    pub fn to_string(&self) -> (res: String)
        ensures
            self matches InsertError::UniqueViolation(_) ==> res@
                == "duplicate key value violates unique constraint"@,
            self matches InsertError::Other(m) ==> res@ == m@,
    {
        match self {
            InsertError::UniqueViolation(_) => "duplicate key value violates unique constraint".to_owned(),
            InsertError::Other(m) => m.clone(),
        }
    }
}

impl DeleteError {
    /// Every failed deletion is reported the same way.
    pub fn from_failure(failure: DbFailure) -> (res: DeleteError)
        ensures
            res == DeleteError::Other(failure.message),
    {
        DeleteError::Other(failure.message)
    }

    /// The error's description: the underlying one.
    pub fn to_string(&self) -> (res: String)
        ensures
            self matches DeleteError::Other(m) ==> res@ == m@,
    {
        match self {
            DeleteError::Other(m) => m.clone(),
        }
    }
}

} // verus!
