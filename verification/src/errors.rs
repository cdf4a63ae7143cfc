//! Error types shared by the service layer and the stores.
//!
//! A [`ServiceError`] maps to an HTTP status code for the REST API and to an
//! MCP error (kind and message) for the MCP server.  The display texts are
//! those that users see.
use vstd::prelude::*;

use crate::text::{concat, own};

verus! {

/// Errors raised by the storage layer.
#[derive(Debug)]
pub enum StoreError {
    /// Database connection error.
    Database(String),
    /// Record not found.
    NotFound(String),
    /// Query execution error.
    Query(String),
    /// Index creation error.
    Index(String),
    /// Serialization error.
    Serialization(String),
    /// Input/output error, held as its display text.
    Io(String),
    /// Internal error.
    Internal(String),
}

/// Errors that can occur in service operations.
#[derive(Debug)]
pub enum ServiceError {
    /// Resource not found.
    NotFound(String),
    /// Invalid input or parameters.
    Validation(String),
    /// Store/database error.
    Store(StoreError),
    /// Authentication/authorization error.
    Auth(String),
    /// External service error (e.g., crawling, embedding).
    External(String),
    /// Internal server error.
    Internal(String),
    /// Configuration error.
    Config(String),
    /// Conflict error (e.g., duplicate resource).
    Conflict(String),
}

/// Result type of service operations.
pub type ServiceResult<T> = Result<T, ServiceError>;

/// Kind of an MCP error.
#[derive(Debug, Clone, Copy, PartialEq, Eq, Structural)]
pub enum McpErrorKind {
    /// The client supplied bad parameters.
    InvalidParams,
    /// The server failed.
    InternalError,
}

/// An MCP error: its kind and its message.
#[derive(Debug)]
pub struct McpError {
    pub kind: McpErrorKind,
    pub message: String,
}

/// Display text of a store error.
pub open spec fn store_error_text(e: StoreError) -> Seq<char> {
    match e {
        StoreError::Database(m) => "Database error: "@ + m@,
        StoreError::NotFound(m) => "Record not found: "@ + m@,
        StoreError::Query(m) => "Query error: "@ + m@,
        StoreError::Index(m) => "Index error: "@ + m@,
        StoreError::Serialization(m) => "Serialization error: "@ + m@,
        StoreError::Io(m) => "IO error: "@ + m@,
        StoreError::Internal(m) => "Internal error: "@ + m@,
    }
}

/// Display text of a service error.
pub open spec fn service_error_text(e: ServiceError) -> Seq<char> {
    match e {
        ServiceError::NotFound(m) => "Not found: "@ + m@,
        ServiceError::Validation(m) => "Validation error: "@ + m@,
        ServiceError::Store(s) => "Store error: "@ + store_error_text(s),
        ServiceError::Auth(m) => "Auth error: "@ + m@,
        ServiceError::External(m) => "External service error: "@ + m@,
        ServiceError::Internal(m) => "Internal error: "@ + m@,
        ServiceError::Config(m) => "Configuration error: "@ + m@,
        ServiceError::Conflict(m) => "Conflict: "@ + m@,
    }
}

/// HTTP status code of a service error.
pub open spec fn service_error_status(e: ServiceError) -> u16 {
    match e {
        ServiceError::NotFound(_) => 404,
        ServiceError::Validation(_) => 400,
        ServiceError::Store(_) => 500,
        ServiceError::Auth(_) => 401,
        ServiceError::External(_) => 502,
        ServiceError::Internal(_) => 500,
        ServiceError::Config(_) => 500,
        ServiceError::Conflict(_) => 409,
    }
}

/// The HTTP status of each kind of service error: 404 for something not
/// found, 400 for invalid input, 401 for missing authorisation, 409 for a
/// conflict, 502 when an outside service failed, and 500 for store,
/// internal and configuration failures.
pub proof fn law_error_statuses(e: ServiceError)
    ensures
        e is NotFound ==> service_error_status(e) == 404,
        e is Validation ==> service_error_status(e) == 400,
        e is Auth ==> service_error_status(e) == 401,
        e is Conflict ==> service_error_status(e) == 409,
        e is External ==> service_error_status(e) == 502,
        (e is Store || e is Internal || e is Config) ==> service_error_status(e) == 500,
{
}

impl StoreError {
    /// The display text of the error.
    pub fn message(&self) -> (r: String)
        ensures
            r@ == store_error_text(*self),
    {
        match self {
            StoreError::Database(m) => concat("Database error: ", m.as_str()),
            StoreError::NotFound(m) => concat("Record not found: ", m.as_str()),
            StoreError::Query(m) => concat("Query error: ", m.as_str()),
            StoreError::Index(m) => concat("Index error: ", m.as_str()),
            StoreError::Serialization(m) => concat("Serialization error: ", m.as_str()),
            StoreError::Io(m) => concat("IO error: ", m.as_str()),
            StoreError::Internal(m) => concat("Internal error: ", m.as_str()),
        }
    }
}

impl ServiceError {
    /// A not found error for a resource type and identifier:
    /// `"<type> '<identifier>' not found"`.
    pub fn not_found(resource_type: &str, identifier: &str) -> (r: ServiceError)
        ensures
            r matches ServiceError::NotFound(m) && m@ == resource_type@ + " '"@ + identifier@
                + "' not found"@,
    {
        let mut m = own(resource_type);
        m.append(" '");
        m.append(identifier);
        m.append("' not found");
        ServiceError::NotFound(m)
    }

    /// A validation error for a field: `"Invalid <field>: <reason>"`.
    pub fn invalid_field(field: &str, reason: &str) -> (r: ServiceError)
        ensures
            r matches ServiceError::Validation(m) && m@ == "Invalid "@ + field@ + ": "@
                + reason@,
    {
        let mut m = own("Invalid ");
        m.append(field);
        m.append(": ");
        m.append(reason);
        ServiceError::Validation(m)
    }

    /// An internal error with the given message.
    pub fn internal(message: &str) -> (r: ServiceError)
        ensures
            r matches ServiceError::Internal(m) && m@ == message@,
    {
        ServiceError::Internal(own(message))
    }

    /// A conflict error with the given message.
    pub fn conflict(message: &str) -> (r: ServiceError)
        ensures
            r matches ServiceError::Conflict(m) && m@ == message@,
    {
        ServiceError::Conflict(own(message))
    }

    /// A configuration error with the given message.
    pub fn config(message: &str) -> (r: ServiceError)
        ensures
            r matches ServiceError::Config(m) && m@ == message@,
    {
        ServiceError::Config(own(message))
    }

    /// A bad request error: a validation error with the given message.
    pub fn bad_request(message: &str) -> (r: ServiceError)
        ensures
            r matches ServiceError::Validation(m) && m@ == message@,
    {
        ServiceError::Validation(own(message))
    }

    /// The HTTP status code that the REST API answers with.
    pub fn status_code(&self) -> (r: u16)
        ensures
            r == service_error_status(*self),
    {
        match self {
            ServiceError::NotFound(_) => 404,
            ServiceError::Validation(_) => 400,
            ServiceError::Store(_) => 500,
            ServiceError::Auth(_) => 401,
            ServiceError::External(_) => 502,
            ServiceError::Internal(_) => 500,
            ServiceError::Config(_) => 500,
            ServiceError::Conflict(_) => 409,
        }
    }

    /// The display text of the error.
    pub fn message(&self) -> (r: String)
        ensures
            r@ == service_error_text(*self),
    {
        match self {
            ServiceError::NotFound(m) => concat("Not found: ", m.as_str()),
            ServiceError::Validation(m) => concat("Validation error: ", m.as_str()),
            ServiceError::Store(s) => {
                let t = s.message();
                concat("Store error: ", t.as_str())
            },
            ServiceError::Auth(m) => concat("Auth error: ", m.as_str()),
            ServiceError::External(m) => concat("External service error: ", m.as_str()),
            ServiceError::Internal(m) => concat("Internal error: ", m.as_str()),
            ServiceError::Config(m) => concat("Configuration error: ", m.as_str()),
            ServiceError::Conflict(m) => concat("Conflict: ", m.as_str()),
        }
    }

    /// The MCP error that the MCP server answers with: bad identifiers and
    /// invalid input are the client's fault and keep their message;
    /// authentication errors are internal with an explanatory prefix; every
    /// other error is internal with its display text.
    pub fn to_mcp_error(&self) -> (r: McpError)
        ensures
            match *self {
                ServiceError::NotFound(m) => r.kind == McpErrorKind::InvalidParams && r.message@
                    == m@,
                ServiceError::Validation(m) => r.kind == McpErrorKind::InvalidParams
                    && r.message@ == m@,
                ServiceError::Auth(m) => r.kind == McpErrorKind::InternalError && r.message@
                    == "Authentication error: "@ + m@,
                _ => r.kind == McpErrorKind::InternalError && r.message@ == service_error_text(
                    *self,
                ),
            },
    {
        match self {
            ServiceError::NotFound(m) => McpError {
                kind: McpErrorKind::InvalidParams,
                message: m.clone(),
            },
            ServiceError::Validation(m) => McpError {
                kind: McpErrorKind::InvalidParams,
                message: m.clone(),
            },
            ServiceError::Auth(m) => McpError {
                kind: McpErrorKind::InternalError,
                message: concat("Authentication error: ", m.as_str()),
            },
            _ => McpError { kind: McpErrorKind::InternalError, message: self.message() },
        }
    }
}

} // verus!
