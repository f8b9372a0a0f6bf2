use bigneon_core::errors::{
    ApplicationError, AuthError, BigNeonError, DatabaseError, ErrorCode, InventoryError,
    ResponseClass,
};

#[test]
fn authorization_failures_surface_uniformly() {
    let denied = BigNeonError::from(AuthError {
        reason: "Unauthorized".to_string(),
    });
    assert_eq!(denied.response_class(), ResponseClass::Unauthorized);
}

#[test]
fn validation_failures_surface_with_detail() {
    let error = BigNeonError::from(DatabaseError::new(
        ErrorCode::ValidationError { errors: Vec::new() },
        None,
    ));
    assert_eq!(error.response_class(), ResponseClass::UnprocessableEntity);
}

#[test]
fn insufficient_inventory_is_a_conflict() {
    let error = BigNeonError::from(InventoryError::InsufficientInventory);
    assert_eq!(error.response_class(), ResponseClass::Conflict);
}

#[test]
fn integrity_and_store_failures_stay_opaque() {
    let multiple = BigNeonError::from(DatabaseError::new(
        ErrorCode::MultipleResultsWhenOneExpected,
        Some("Expected a single ticket pricing period but multiple were found".to_string()),
    ));
    assert_eq!(multiple.response_class(), ResponseClass::InternalServerError);

    for code in [
        ErrorCode::InsertError,
        ErrorCode::UpdateError,
        ErrorCode::DeleteError,
        ErrorCode::QueryError,
    ] {
        let error = BigNeonError::from(DatabaseError::new(code, None));
        assert_eq!(error.response_class(), ResponseClass::InternalServerError);
    }

    let application = BigNeonError::from(ApplicationError {
        reason: "mail template missing".to_string(),
    });
    assert_eq!(application.response_class(), ResponseClass::InternalServerError);
}

#[test]
fn error_messages_stay_server_side() {
    let denied = BigNeonError::from(AuthError {
        reason: "Unauthorized".to_string(),
    });
    assert_eq!(denied.message(), "Unauthorized");
    let store = BigNeonError::from(DatabaseError::new(
        ErrorCode::QueryError,
        Some("Could not load Ticket Pricing".to_string()),
    ));
    assert_eq!(store.message(), "Could not load Ticket Pricing");
    let bare = BigNeonError::from(DatabaseError::new(ErrorCode::QueryError, None));
    assert_eq!(bare.message(), "Database error");
    let conflict = BigNeonError::from(InventoryError::InsufficientInventory);
    assert_eq!(conflict.message(), "Not enough tickets remaining");
}

#[test]
fn missing_rows_surface_as_not_found() {
    let error = BigNeonError::from(DatabaseError::no_results("Error loading ticket pricing"));
    assert_eq!(error.response_class(), ResponseClass::NotFound);
}
