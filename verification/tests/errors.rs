use api::error::{ApiError, Error, ErrorCode, QuotationsError};

fn response(e: Error) -> (u16, ApiError) {
    e.into_error_response()
}

#[test]
fn item_not_found_is_answered_with_404() {
    let (status, body) = response(Error::ItemNotFoundError);
    assert_eq!(status, 404);
    assert_eq!(body.status_code, 404);
    assert_eq!(body.code, ErrorCode::ItemNotFound);
    assert_eq!(body.message, "The request item doesn't exist");
}

#[test]
fn registration_errors_are_unprocessable() {
    let (status, body) = response(Error::EmailTakenRegistrationError);
    assert_eq!(status, 422);
    assert_eq!(body.code, ErrorCode::NotAllowed);
    assert_eq!(body.message, "Email is already in use");

    let (status, body) = response(Error::BreachedPasswordRegistrationError);
    assert_eq!(status, 422);
    assert_eq!(body.message, "Password has been found in data breaches");

    let (status, body) = response(Error::InvalidCredentialsLoginError);
    assert_eq!(status, 422);
    assert_eq!(body.status_code, 422);
    assert_eq!(body.message, "Invalid credentials");
}

#[test]
fn missing_selected_quote_carries_its_payload() {
    let (status, body) = response(Error::NoSelectedQuoteAvailableForPart("part-7".to_string()));
    assert_eq!(status, 400);
    assert_eq!(body.status_code, 400);
    assert_eq!(body.code, ErrorCode::MissingUserInput);
    assert_eq!(body.message, "part-7");
}

#[test]
fn invalid_part_attributes_carry_their_payload() {
    let (status, body) = response(Error::InvalidPartAttributes("bad tolerance".to_string()));
    assert_eq!(status, 400);
    assert_eq!(body.code, ErrorCode::MissingUserInput);
    assert_eq!(body.message, "bad tolerance");
}

#[test]
fn unknown_and_missing_parameter_get_the_default_body() {
    let (status, body) = response(Error::UnknownError);
    assert_eq!(status, 500);
    assert_eq!(body.status_code, 0);
    assert_eq!(body.code, ErrorCode::UnknownError);
    assert_eq!(body.message, "");

    let (status, body) = response(Error::MissingRequiredParameter("customer_id".to_string()));
    assert_eq!(status, 500);
    assert_eq!(body.status_code, 0);
    assert_eq!(body.code, ErrorCode::UnknownError);
    assert_eq!(body.message, "");
}

#[test]
fn other_errors_map_to_their_status_and_code() {
    let cases = vec![
        (Error::QuoteIsInPayedStatus, 422, ErrorCode::NotAllowed, "Cannot update the quote after paying it"),
        (Error::InvalidUrl, 400, ErrorCode::BadInput, "Invalid url couldn't be parsed"),
        (Error::DeleteLockedProject, 422, ErrorCode::NotAllowed, "Cannot delete a project contains payed quotes"),
        (Error::DeletePayedQuotation, 422, ErrorCode::NotAllowed, "Cannot delete a quote that has been paid for"),
        (
            Error::NoPdfQuoteAvailable,
            400,
            ErrorCode::ItemNotFound,
            "A pdf quote can't be generated because parts haven't been quoted yet",
        ),
        (Error::Forbidden, 403, ErrorCode::NotAllowed, "Operation forbidden"),
        (Error::Unauthorized, 401, ErrorCode::Unauthorized, "Unauthorized"),
    ];
    for (error, expected_status, expected_code, expected_message) in cases {
        let (status, body) = response(error);
        assert_eq!(status, expected_status);
        assert_eq!(body.status_code, expected_status);
        assert_eq!(body.code, expected_code);
        assert_eq!(body.message, expected_message);
    }
}

#[test]
fn error_texts() {
    assert_eq!(
        Error::NoSelectedQuoteAvailableForPart("p1".to_string()).to_string(),
        "No quote selected for part with id `p1`"
    );
    assert_eq!(
        Error::MissingRequiredParameter("project_id".to_string()).to_string(),
        "`project_id` is required"
    );
    assert_eq!(
        Error::InvalidPartAttributes("x".to_string()).to_string(),
        "Invalid part attributes: x"
    );
    assert_eq!(Error::UnknownError.to_string(), "An unexpected error occurred");
}

#[test]
fn error_code_wire_names() {
    assert_eq!(ErrorCode::UnknownError.to_string(), "UNKNOWN_ERROR");
    assert_eq!(ErrorCode::Unauthorized.to_string(), "UNAUTHORIZED");
    assert_eq!(ErrorCode::ItemNotFound.to_string(), "ITEM_NOT_FOUND");
    assert_eq!(ErrorCode::MissingUserInput.to_string(), "MISSING_USER_INPUT");
    assert_eq!(ErrorCode::NotAllowed.to_string(), "NOT_ALLOWED");
    assert_eq!(ErrorCode::BadInput.to_string(), "BAD_INPUT");
}

#[test]
fn defaults() {
    let body = ApiError::default();
    assert_eq!(body.status_code, 0);
    assert_eq!(body.code, ErrorCode::UnknownError);
    assert_eq!(body.message, "");
    assert_eq!(ErrorCode::default(), ErrorCode::UnknownError);
}

#[test]
fn quotations_error_texts() {
    assert_eq!(QuotationsError::CreateQuotationError.to_string(), "error while creating quotation");
    assert_eq!(QuotationsError::QueryQuotationsError.to_string(), "error while querying quotations");
    assert_eq!(QuotationsError::UnknownError.to_string(), "an unexpected error occurred");
}
