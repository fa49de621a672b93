//! What can go wrong, as plain values.

use vstd::prelude::*;

verus! {

/// Why the store refused a statement.
#[derive(Clone, Copy, Debug, PartialEq, Eq, Structural)]
pub enum DatabaseError {
    /// A row was asked for that is not there.
    RowNotFound,
    /// A row with the same key is there already.
    UniqueViolation,
    /// A registration names a device or a pass that is not there.
    ForeignKeyViolation,
    /// A number left the range of its column.
    NumericValueOutOfRange,
}

/// Why an operator's identity token was not accepted.
#[derive(Clone, Copy, Debug, PartialEq, Eq, Structural)]
pub enum OidcValidationError {
    ValidationFailed,
    MissingKIDToken,
    MissingKIDJWKS,
    CacheError,
}

/// A request part that the HTTP layer refused: the status it answers with
/// and its text.
#[derive(Debug, PartialEq, Eq)]
pub struct Rejection {
    pub status: u16,
    pub body_text: String,
}

#[derive(Debug, PartialEq, Eq)]
pub enum Error {
    Unknown,
    Other(String),
    InvalidRequest(String),
    IO(String),
    AxumPathRejection(Rejection),
    AxumJsonRejection(Rejection),
    AxumTypedHeaderRejection(String),
    Database(DatabaseError),
    DatabaseMigration(String),
    OpenSsl(String),
    HttpStatus(u16),
    AppleApn(String),
    Image(String),
    PassNotFound,
    InvalidAmountOfPoints,
    OidcValidate(OidcValidationError),
    OidcValidateBuild(String),
    Env(String),
}

} // verus!
