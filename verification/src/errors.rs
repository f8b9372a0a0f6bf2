//! Error model: a tagged union with a variant per error source, and the
//! policy that maps each error to the uniform response classes.
//!
//! Authorization failures are surfaced uniformly, never distinguishing "not
//! found" from "forbidden"; validation failures carry field-level detail;
//! integrity and store failures surface as opaque internal errors.

use vstd::prelude::*;

verus! {

/// One field-level validation failure: the code of the violated rule and,
/// for pricing period overlaps, the offending period and its attempted
/// bounds.
#[derive(Debug)]
pub struct ValidationErrorItem {
    /// The code of the violated rule, e.g. `ticket_pricing_overlapping_periods`.
    pub code: String,
    /// The pricing period the failure is reported against.
    pub period_id: u128,
    /// The ticket type whose schedule was validated.
    pub ticket_type_id: u128,
    /// Start of the attempted window, seconds since the epoch.
    pub start_date: i64,
    /// End of the attempted window, seconds since the epoch.
    pub end_date: i64,
}

/// Validation failures of one field, keyed by the field name.
#[derive(Debug)]
pub struct FieldValidationErrors {
    pub field: String,
    pub errors: Vec<ValidationErrorItem>,
}

/// The kind of a store-level error.
#[derive(Debug)]
pub enum ErrorCode {
    InsertError,
    UpdateError,
    DeleteError,
    QueryError,
    NoResults,
    MultipleResultsWhenOneExpected,
    ValidationError { errors: Vec<FieldValidationErrors> },
}

/// A store-level error: its kind and an optional human-readable message.
#[derive(Debug)]
pub struct DatabaseError {
    pub error_code: ErrorCode,
    pub message: Option<String>,
}

impl DatabaseError {
    /// A database error of the given kind with the given message.
    pub fn new(error_code: ErrorCode, message: Option<String>) -> (r: DatabaseError)
        ensures
            r.error_code == error_code,
            r.message == message,
    {
        DatabaseError { error_code, message }
    }

    /// The error for a lookup that matched nothing.
    pub fn no_results(message: &str) -> (r: DatabaseError)
        ensures
            r.error_code is NoResults,
            r.message matches Some(m) && m@ == message@,
    {
        DatabaseError { error_code: ErrorCode::NoResults, message: Some(message.to_owned()) }
    }
}

/// An authorization failure. Its body carries no detail of which check
/// failed: the response is uniform by design.
#[derive(Debug)]
pub struct AuthError {
    pub reason: String,
}

/// A failure of an application-level rule outside the store and authorization.
#[derive(Debug)]
pub struct ApplicationError {
    pub reason: String,
}

/// An inventory accounting failure.
#[derive(Debug)]
pub enum InventoryError {
    /// A reservation asked for more tickets than remain.
    InsufficientInventory,
    /// A release asked for more tickets than the order item still holds.
    ReleaseExceedsReserved,
    /// A release named an order item the ledger does not hold.
    UnknownOrderItem,
    /// A reservation reused the id of an order item the ledger already
    /// holds.
    DuplicateOrderItem,
}

/// The top-level error: one variant per source.
#[derive(Debug)]
pub enum BigNeonError {
    Database(DatabaseError),
    Auth(AuthError),
    Application(ApplicationError),
    Inventory(InventoryError),
}

/// How an error is surfaced to a client: the uniform unauthorized body,
/// field-level validation detail, a conflict the caller may retry, a plain
/// not-found, or an opaque internal error with detail withheld.
#[derive(Clone, Copy, PartialEq, Eq, Structural, Debug)]
pub enum ResponseClass {
    Unauthorized,
    UnprocessableEntity,
    Conflict,
    NotFound,
    InternalServerError,
}

/// The response class of each error: authorization failures are uniformly
/// unauthorized; validation failures carry field detail; insufficient
/// inventory is a conflict; a lookup that matched nothing is not found;
/// every integrity or store failure is an opaque internal error.
pub open spec fn spec_response_class(e: BigNeonError) -> ResponseClass {
    match e {
        BigNeonError::Auth(_) => ResponseClass::Unauthorized,
        BigNeonError::Application(_) => ResponseClass::InternalServerError,
        BigNeonError::Inventory(ie) => match ie {
            InventoryError::InsufficientInventory => ResponseClass::Conflict,
            InventoryError::ReleaseExceedsReserved => ResponseClass::InternalServerError,
            InventoryError::UnknownOrderItem => ResponseClass::InternalServerError,
            InventoryError::DuplicateOrderItem => ResponseClass::InternalServerError,
        },
        BigNeonError::Database(de) => match de.error_code {
            ErrorCode::ValidationError { errors: _ } => ResponseClass::UnprocessableEntity,
            ErrorCode::NoResults => ResponseClass::NotFound,
            ErrorCode::MultipleResultsWhenOneExpected => ResponseClass::InternalServerError,
            ErrorCode::InsertError => ResponseClass::InternalServerError,
            ErrorCode::UpdateError => ResponseClass::InternalServerError,
            ErrorCode::DeleteError => ResponseClass::InternalServerError,
            ErrorCode::QueryError => ResponseClass::InternalServerError,
        },
    }
}

impl BigNeonError {
    /// The response class this error surfaces as.
    pub fn response_class(&self) -> (r: ResponseClass)
        ensures
            r == spec_response_class(*self),
    {
        match self {
            BigNeonError::Auth(_) => ResponseClass::Unauthorized,
            BigNeonError::Application(_) => ResponseClass::InternalServerError,
            BigNeonError::Inventory(ie) => match ie {
                InventoryError::InsufficientInventory => ResponseClass::Conflict,
                InventoryError::ReleaseExceedsReserved => ResponseClass::InternalServerError,
                InventoryError::UnknownOrderItem => ResponseClass::InternalServerError,
                InventoryError::DuplicateOrderItem => ResponseClass::InternalServerError,
            },
            BigNeonError::Database(de) => match &de.error_code {
                ErrorCode::ValidationError { errors: _ } => ResponseClass::UnprocessableEntity,
                ErrorCode::NoResults => ResponseClass::NotFound,
                ErrorCode::MultipleResultsWhenOneExpected => ResponseClass::InternalServerError,
                ErrorCode::InsertError => ResponseClass::InternalServerError,
                ErrorCode::UpdateError => ResponseClass::InternalServerError,
                ErrorCode::DeleteError => ResponseClass::InternalServerError,
                ErrorCode::QueryError => ResponseClass::InternalServerError,
            },
        }
    }
}

impl BigNeonError {
    /// A line describing the error, for server-side logging; clients see
    /// only the response class.
    pub fn message(&self) -> (r: String)
        ensures
            self matches BigNeonError::Auth(a) ==> r@ == a.reason@,
            self matches BigNeonError::Application(a) ==> r@ == a.reason@,
            self matches BigNeonError::Database(d) ==> (d.message matches Some(m) ==> r@ == m@)
                && (d.message is None ==> r@ == "Database error"@),
            self matches BigNeonError::Inventory(ie) ==> r@ == spec_inventory_message(*ie),
    {
        match self {
            BigNeonError::Auth(a) => clone_string(&a.reason),
            BigNeonError::Application(a) => clone_string(&a.reason),
            BigNeonError::Database(d) => match &d.message {
                Some(m) => clone_string(m),
                None => "Database error".to_owned(),
            },
            BigNeonError::Inventory(ie) => match ie {
                InventoryError::InsufficientInventory => {
                    "Not enough tickets remaining".to_owned()
                },
                InventoryError::ReleaseExceedsReserved => {
                    "Released more tickets than were reserved".to_owned()
                },
                InventoryError::UnknownOrderItem => "Unknown order item".to_owned(),
                InventoryError::DuplicateOrderItem => "Duplicate order item".to_owned(),
            },
        }
    }
}

/// The log line of each inventory failure.
pub open spec fn spec_inventory_message(e: InventoryError) -> Seq<char> {
    match e {
        InventoryError::InsufficientInventory => "Not enough tickets remaining"@,
        InventoryError::ReleaseExceedsReserved => "Released more tickets than were reserved"@,
        InventoryError::UnknownOrderItem => "Unknown order item"@,
        InventoryError::DuplicateOrderItem => "Duplicate order item"@,
    }
}

/// A copy of a string with the same characters.
fn clone_string(s: &String) -> (r: String)
    ensures
        r@ == s@,
{
    s.clone()
}

impl From<DatabaseError> for BigNeonError {
    fn from(e: DatabaseError) -> (r: BigNeonError) {
        BigNeonError::Database(e)
    }
}

impl vstd::std_specs::convert::FromSpecImpl<DatabaseError> for BigNeonError {
    open spec fn obeys_from_spec() -> bool {
        true
    }

    open spec fn from_spec(e: DatabaseError) -> BigNeonError {
        BigNeonError::Database(e)
    }
}

impl From<AuthError> for BigNeonError {
    fn from(e: AuthError) -> (r: BigNeonError) {
        BigNeonError::Auth(e)
    }
}

impl vstd::std_specs::convert::FromSpecImpl<AuthError> for BigNeonError {
    open spec fn obeys_from_spec() -> bool {
        true
    }

    open spec fn from_spec(e: AuthError) -> BigNeonError {
        BigNeonError::Auth(e)
    }
}

impl From<ApplicationError> for BigNeonError {
    fn from(e: ApplicationError) -> (r: BigNeonError) {
        BigNeonError::Application(e)
    }
}

impl vstd::std_specs::convert::FromSpecImpl<ApplicationError> for BigNeonError {
    open spec fn obeys_from_spec() -> bool {
        true
    }

    open spec fn from_spec(e: ApplicationError) -> BigNeonError {
        BigNeonError::Application(e)
    }
}

impl From<InventoryError> for BigNeonError {
    fn from(e: InventoryError) -> (r: BigNeonError) {
        BigNeonError::Inventory(e)
    }
}

impl vstd::std_specs::convert::FromSpecImpl<InventoryError> for BigNeonError {
    open spec fn obeys_from_spec() -> bool {
        true
    }

    open spec fn from_spec(e: InventoryError) -> BigNeonError {
        BigNeonError::Inventory(e)
    }
}

} // verus!
