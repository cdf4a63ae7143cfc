use kix::errors::{McpErrorKind, ServiceError, StoreError};

#[test]
fn test_not_found_to_status_code() {
    let err = ServiceError::not_found("Project", "test-123");
    assert_eq!(err.status_code(), 404);
}

#[test]
fn test_validation_to_status_code() {
    let err = ServiceError::invalid_field("name", "cannot be empty");
    assert_eq!(err.status_code(), 400);
}

#[test]
fn test_conflict_to_status_code() {
    let err = ServiceError::conflict("Resource already exists");
    assert_eq!(err.status_code(), 409);
}

#[test]
fn test_not_found_to_mcp_error() {
    let err = ServiceError::not_found("Issue", "42");
    let mcp_err = err.to_mcp_error();
    assert!(mcp_err.message.contains("not found"));
}

#[test]
fn test_internal_to_mcp_error() {
    let err = ServiceError::internal("Database connection failed");
    let mcp_err = err.to_mcp_error();
    assert!(mcp_err.message.contains("Database connection failed"));
}

#[test]
fn error_texts_and_kinds() {
    let nf = ServiceError::not_found("Project", "test-123");
    assert_eq!(nf.message(), "Not found: Project 'test-123' not found");
    assert_eq!(nf.to_mcp_error().kind, McpErrorKind::InvalidParams);
    assert_eq!(nf.to_mcp_error().message, "Project 'test-123' not found");
    let v = ServiceError::invalid_field("name", "cannot be empty");
    assert_eq!(v.message(), "Validation error: Invalid name: cannot be empty");
    let auth = ServiceError::Auth("bad token".to_string());
    assert_eq!(auth.status_code(), 401);
    let m = auth.to_mcp_error();
    assert_eq!(m.kind, McpErrorKind::InternalError);
    assert_eq!(m.message, "Authentication error: bad token");
    let st = ServiceError::Store(StoreError::Database("locked".to_string()));
    assert_eq!(st.status_code(), 500);
    assert_eq!(st.to_mcp_error().message, "Store error: Database error: locked");
    assert_eq!(ServiceError::External("x".to_string()).status_code(), 502);
    assert_eq!(ServiceError::config("c").status_code(), 500);
    assert_eq!(ServiceError::bad_request("b").status_code(), 400);
    assert_eq!(ServiceError::internal("i").message(), "Internal error: i");
}
