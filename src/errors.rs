//! The error taxonomy of the persistence core.
use vstd::prelude::*;


verus! {

/// A failure that aborts a request and propagates to its caller.
#[derive(Debug, Clone, Copy, PartialEq, Eq, Structural)]
pub enum PersistenceError {
    /// No connection could be obtained from the pool.
    DBConnError,
    /// `START TRANSACTION` failed.
    TransactionStartError,
    /// `COMMIT` failed.
    CommitError,
    /// `ROLLBACK` failed.
    RollbackError,
    /// A fetch yielded no mappable row.
    ResourceNotFound,
    /// A select statement could not be executed.
    DBOpError,
}

/// The fixed, human-readable text reported for each error kind.
pub open spec fn error_message(e: PersistenceError) -> Seq<char> {
    match e {
        PersistenceError::DBConnError => "No connections available from pool"@,
        PersistenceError::TransactionStartError => "Can NOT begin the transaction"@,
        PersistenceError::CommitError => "Can NOT commit the transaction"@,
        PersistenceError::RollbackError => "Can NOT rollback the transaction"@,
        PersistenceError::ResourceNotFound => "Can NOT found the resource"@,
        PersistenceError::DBOpError => "Can NOT Execute SQL"@,
    }
}

/// The HTTP status that each error kind maps to: not-found for a missing
/// resource, server error for everything else.
pub open spec fn error_status(e: PersistenceError) -> u16 {
    match e {
        PersistenceError::ResourceNotFound => 404,
        _ => 500,
    }
}

impl PersistenceError {
    pub fn message(&self) -> (r: String)
        ensures
            r@ == error_message(*self),
    {
        match self {
            PersistenceError::DBConnError => String::from_str("No connections available from pool"),
            PersistenceError::TransactionStartError => String::from_str("Can NOT begin the transaction"),
            PersistenceError::CommitError => String::from_str("Can NOT commit the transaction"),
            PersistenceError::RollbackError => String::from_str("Can NOT rollback the transaction"),
            PersistenceError::ResourceNotFound => String::from_str("Can NOT found the resource"),
            PersistenceError::DBOpError => String::from_str("Can NOT Execute SQL"),
        }
    }

    pub fn status_code(&self) -> (r: u16)
        ensures
            r == error_status(*self),
    {
        match self {
            PersistenceError::ResourceNotFound => 404,
            _ => 500,
        }
    }

    /// The body and status of the error response for this error.
    pub fn error_response(&self) -> (r: (u16, PersistenceErrorResponse))
        ensures
            r.0 == error_status(*self),
            r.1.message@ == error_message(*self),
    {
        (self.status_code(), PersistenceErrorResponse { message: self.message() })
    }
}

/// Body of an error response.
#[derive(Debug, Clone, PartialEq, Eq)]
pub struct PersistenceErrorResponse {
    pub message: String,
}

/// Coarse category of a column that could not be read.
#[derive(Debug, Clone, Copy, PartialEq, Eq, Structural)]
pub enum MysqlValueError {
    MissingString,
    MissingInteger,
    MissingDatetime,
}

/// A row that could not be mapped: which kind of value was missing, and in
/// which column.
#[derive(Debug, Clone, PartialEq, Eq)]
pub struct ValueMissing {
    pub kind: MysqlValueError,
    pub column: String,
}

/// The numeric code carried by each category.
pub open spec fn value_error_code(kind: MysqlValueError) -> u16 {
    match kind {
        MysqlValueError::MissingString => 1,
        MysqlValueError::MissingInteger => 2,
        MysqlValueError::MissingDatetime => 3,
    }
}

/// The message that names the failing column.
pub open spec fn value_error_message(column: Seq<char>) -> Seq<char> {
    "Error: Issue with value existing in column("@ + column + ")"@
}

impl ValueMissing {
    pub fn code(&self) -> (r: u16)
        ensures
            r == value_error_code(self.kind),
    {
        match self.kind {
            MysqlValueError::MissingString => 1,
            MysqlValueError::MissingInteger => 2,
            MysqlValueError::MissingDatetime => 3,
        }
    }

    pub fn message(&self) -> (r: String)
        ensures
            r@ == value_error_message(self.column@),
    {
        let mut s = String::from_str("Error: Issue with value existing in column(");
        s.append(self.column.as_str());
        s.append(")");
        s
    }
}

/// The mapping error for a missing or unconvertible column.
pub fn generate_mysql_value_error(err_type: MysqlValueError, column_name: String) -> (r:
    ValueMissing)
    ensures
        r.kind == err_type,
        r.column@ == column_name@,
{
    ValueMissing { kind: err_type, column: column_name }
}

} // verus!
