use vstd::prelude::*;

verus! {

/// Domain errors of the service.
#[derive(Debug, Clone, PartialEq, Eq)]
pub enum Error {
    EmailTakenRegistrationError,
    InvalidCredentialsLoginError,
    BreachedPasswordRegistrationError,
    ItemNotFoundError,
    NoSelectedQuoteAvailableForPart(String),
    QuoteIsInPayedStatus,
    InvalidUrl,
    DeleteLockedProject,
    DeletePayedQuotation,
    NoPdfQuoteAvailable,
    MissingRequiredParameter(String),
    Forbidden,
    Unauthorized,
    InvalidPartAttributes(String),
    UnknownError,
}

/// Machine readable error codes sent to clients.
#[derive(Debug, Clone, Copy, PartialEq, Eq, Structural)]
pub enum ErrorCode {
    UnknownError,
    Unauthorized,
    ItemNotFound,
    MissingUserInput,
    NotAllowed,
    BadInput,
}

/// Body of an error response.
#[derive(Debug, Clone, PartialEq, Eq)]
pub struct ApiError {
    pub status_code: u16,
    pub code: ErrorCode,
    pub message: String,
}

pub const STATUS_BAD_REQUEST: u16 = 400;
pub const STATUS_UNAUTHORIZED: u16 = 401;
pub const STATUS_FORBIDDEN: u16 = 403;
pub const STATUS_NOT_FOUND: u16 = 404;
pub const STATUS_UNPROCESSABLE_ENTITY: u16 = 422;
pub const STATUS_INTERNAL_SERVER_ERROR: u16 = 500;

/// The human readable text of an error.
pub open spec fn error_message(e: Error) -> Seq<char> {
    match e {
        Error::EmailTakenRegistrationError => "Email is already in use"@,
        Error::InvalidCredentialsLoginError => "Invalid credentials"@,
        Error::BreachedPasswordRegistrationError => "Password has been found in data breaches"@,
        Error::ItemNotFoundError => "The request item doesn't exist"@,
        Error::NoSelectedQuoteAvailableForPart(id) => "No quote selected for part with id `"@
            + id@ + "`"@,
        Error::QuoteIsInPayedStatus => "Cannot update the quote after paying it"@,
        Error::InvalidUrl => "Invalid url couldn't be parsed"@,
        Error::DeleteLockedProject => "Cannot delete a project contains payed quotes"@,
        Error::DeletePayedQuotation => "Cannot delete a quote that has been paid for"@,
        Error::NoPdfQuoteAvailable =>
            "A pdf quote can't be generated because parts haven't been quoted yet"@,
        Error::MissingRequiredParameter(p) => "`"@ + p@ + "` is required"@,
        Error::Forbidden => "Operation forbidden"@,
        Error::Unauthorized => "Unauthorized"@,
        Error::InvalidPartAttributes(m) => "Invalid part attributes: "@ + m@,
        Error::UnknownError => "An unexpected error occurred"@,
    }
}

/// The HTTP status with which an error is answered.
pub open spec fn error_status(e: Error) -> u16 {
    match e {
        Error::EmailTakenRegistrationError => STATUS_UNPROCESSABLE_ENTITY,
        Error::InvalidCredentialsLoginError => STATUS_UNPROCESSABLE_ENTITY,
        Error::BreachedPasswordRegistrationError => STATUS_UNPROCESSABLE_ENTITY,
        Error::ItemNotFoundError => STATUS_NOT_FOUND,
        Error::NoSelectedQuoteAvailableForPart(_) => STATUS_BAD_REQUEST,
        Error::QuoteIsInPayedStatus => STATUS_UNPROCESSABLE_ENTITY,
        Error::InvalidUrl => STATUS_BAD_REQUEST,
        Error::DeleteLockedProject => STATUS_UNPROCESSABLE_ENTITY,
        Error::DeletePayedQuotation => STATUS_UNPROCESSABLE_ENTITY,
        Error::NoPdfQuoteAvailable => STATUS_BAD_REQUEST,
        Error::Forbidden => STATUS_FORBIDDEN,
        Error::Unauthorized => STATUS_UNAUTHORIZED,
        Error::InvalidPartAttributes(_) => STATUS_BAD_REQUEST,
        Error::MissingRequiredParameter(_) => STATUS_INTERNAL_SERVER_ERROR,
        Error::UnknownError => STATUS_INTERNAL_SERVER_ERROR,
    }
}

/// Whether an error is answered with the default body rather than one of its own.
pub open spec fn has_default_body(e: Error) -> bool {
    e is MissingRequiredParameter || e is UnknownError
}

/// The error code of the body with which an error is answered.
pub open spec fn error_code_of(e: Error) -> ErrorCode {
    match e {
        Error::ItemNotFoundError => ErrorCode::ItemNotFound,
        Error::NoPdfQuoteAvailable => ErrorCode::ItemNotFound,
        Error::NoSelectedQuoteAvailableForPart(_) => ErrorCode::MissingUserInput,
        Error::InvalidPartAttributes(_) => ErrorCode::MissingUserInput,
        Error::InvalidUrl => ErrorCode::BadInput,
        Error::Unauthorized => ErrorCode::Unauthorized,
        Error::MissingRequiredParameter(_) => ErrorCode::UnknownError,
        Error::UnknownError => ErrorCode::UnknownError,
        _ => ErrorCode::NotAllowed,
    }
}

/// The message of the body with which an error is answered: the payload for
/// the two errors that carry a message for the user, none for the default body,
/// and the error's text otherwise.
pub open spec fn response_message(e: Error) -> Seq<char> {
    match e {
        Error::NoSelectedQuoteAvailableForPart(m) => m@,
        Error::InvalidPartAttributes(m) => m@,
        Error::MissingRequiredParameter(_) => Seq::empty(),
        Error::UnknownError => Seq::empty(),
        _ => error_message(e),
    }
}

impl Default for ApiError {
    fn default() -> (r: Self)
        ensures
            r.status_code == 0,
            r.code == ErrorCode::UnknownError,
            r.message@ == Seq::<char>::empty(),
    {
        ApiError { status_code: 0, code: ErrorCode::UnknownError, message: String::new() }
    }
}

impl Default for ErrorCode {
    fn default() -> (r: Self)
        ensures
            r == ErrorCode::UnknownError,
    {
        ErrorCode::UnknownError
    }
}

impl ErrorCode {
    /// The wire name of the code (SCREAMING_SNAKE_CASE).
    pub open spec fn wire_name(self) -> Seq<char> {
        match self {
            ErrorCode::UnknownError => "UNKNOWN_ERROR"@,
            ErrorCode::Unauthorized => "UNAUTHORIZED"@,
            ErrorCode::ItemNotFound => "ITEM_NOT_FOUND"@,
            ErrorCode::MissingUserInput => "MISSING_USER_INPUT"@,
            ErrorCode::NotAllowed => "NOT_ALLOWED"@,
            ErrorCode::BadInput => "BAD_INPUT"@,
        }
    }

    pub fn to_string(&self) -> (s: String)
        ensures
            s@ == self.wire_name(),
    {
        match self {
            ErrorCode::UnknownError => String::from_str("UNKNOWN_ERROR"),
            ErrorCode::Unauthorized => String::from_str("UNAUTHORIZED"),
            ErrorCode::ItemNotFound => String::from_str("ITEM_NOT_FOUND"),
            ErrorCode::MissingUserInput => String::from_str("MISSING_USER_INPUT"),
            ErrorCode::NotAllowed => String::from_str("NOT_ALLOWED"),
            ErrorCode::BadInput => String::from_str("BAD_INPUT"),
        }
    }
}

impl Error {
    /// The error's text, as shown to users and written to logs.
    pub fn to_string(&self) -> (s: String)
        ensures
            s@ == error_message(*self),
    {
        match self {
            Error::EmailTakenRegistrationError => String::from_str("Email is already in use"),
            Error::InvalidCredentialsLoginError => String::from_str("Invalid credentials"),
            Error::BreachedPasswordRegistrationError => String::from_str(
                "Password has been found in data breaches",
            ),
            Error::ItemNotFoundError => String::from_str("The request item doesn't exist"),
            Error::NoSelectedQuoteAvailableForPart(id) => {
                let s = String::from_str("No quote selected for part with id `");
                s.concat(id.as_str()).concat("`")
            },
            Error::QuoteIsInPayedStatus => String::from_str(
                "Cannot update the quote after paying it",
            ),
            Error::InvalidUrl => String::from_str("Invalid url couldn't be parsed"),
            Error::DeleteLockedProject => String::from_str(
                "Cannot delete a project contains payed quotes",
            ),
            Error::DeletePayedQuotation => String::from_str(
                "Cannot delete a quote that has been paid for",
            ),
            Error::NoPdfQuoteAvailable => String::from_str(
                "A pdf quote can't be generated because parts haven't been quoted yet",
            ),
            Error::MissingRequiredParameter(p) => {
                let s = String::from_str("`");
                s.concat(p.as_str()).concat("` is required")
            },
            Error::Forbidden => String::from_str("Operation forbidden"),
            Error::Unauthorized => String::from_str("Unauthorized"),
            Error::InvalidPartAttributes(m) => {
                let s = String::from_str("Invalid part attributes: ");
                s.concat(m.as_str())
            },
            Error::UnknownError => String::from_str("An unexpected error occurred"),
        }
    }

    /// The HTTP status and the body with which the error is answered.
    pub fn into_error_response(self) -> (r: (u16, ApiError))
        ensures
            r.0 == error_status(self),
            r.1.code == error_code_of(self),
            r.1.message@ == response_message(self),
            has_default_body(self) ==> r.1.status_code == 0,
            !has_default_body(self) ==> r.1.status_code == r.0,
    {
        let default_body = has_default_body_exec(&self);
        if default_body {
            return (STATUS_INTERNAL_SERVER_ERROR, ApiError::default());
        }
        let status = status_exec(&self);
        let code = code_exec(&self);
        let message = match self {
            Error::NoSelectedQuoteAvailableForPart(m) => m,
            Error::InvalidPartAttributes(m) => m,
            other => other.to_string(),
        };
        (status, ApiError { status_code: status, code, message })
    }
}

fn has_default_body_exec(e: &Error) -> (b: bool)
    ensures
        b == has_default_body(*e),
{
    match e {
        Error::MissingRequiredParameter(_) => true,
        Error::UnknownError => true,
        _ => false,
    }
}

fn status_exec(e: &Error) -> (s: u16)
    ensures
        s == error_status(*e),
{
    match e {
        Error::EmailTakenRegistrationError => STATUS_UNPROCESSABLE_ENTITY,
        Error::InvalidCredentialsLoginError => STATUS_UNPROCESSABLE_ENTITY,
        Error::BreachedPasswordRegistrationError => STATUS_UNPROCESSABLE_ENTITY,
        Error::ItemNotFoundError => STATUS_NOT_FOUND,
        Error::NoSelectedQuoteAvailableForPart(_) => STATUS_BAD_REQUEST,
        Error::QuoteIsInPayedStatus => STATUS_UNPROCESSABLE_ENTITY,
        Error::InvalidUrl => STATUS_BAD_REQUEST,
        Error::DeleteLockedProject => STATUS_UNPROCESSABLE_ENTITY,
        Error::DeletePayedQuotation => STATUS_UNPROCESSABLE_ENTITY,
        Error::NoPdfQuoteAvailable => STATUS_BAD_REQUEST,
        Error::Forbidden => STATUS_FORBIDDEN,
        Error::Unauthorized => STATUS_UNAUTHORIZED,
        Error::InvalidPartAttributes(_) => STATUS_BAD_REQUEST,
        Error::MissingRequiredParameter(_) => STATUS_INTERNAL_SERVER_ERROR,
        Error::UnknownError => STATUS_INTERNAL_SERVER_ERROR,
    }
}

fn code_exec(e: &Error) -> (c: ErrorCode)
    ensures
        c == error_code_of(*e),
{
    match e {
        Error::ItemNotFoundError => ErrorCode::ItemNotFound,
        Error::NoPdfQuoteAvailable => ErrorCode::ItemNotFound,
        Error::NoSelectedQuoteAvailableForPart(_) => ErrorCode::MissingUserInput,
        Error::InvalidPartAttributes(_) => ErrorCode::MissingUserInput,
        Error::InvalidUrl => ErrorCode::BadInput,
        Error::Unauthorized => ErrorCode::Unauthorized,
        Error::MissingRequiredParameter(_) => ErrorCode::UnknownError,
        Error::UnknownError => ErrorCode::UnknownError,
        _ => ErrorCode::NotAllowed,
    }
}

/// Errors of the first quotations repository.
#[derive(Debug, Clone, Copy, PartialEq, Eq, Structural)]
pub enum QuotationsError {
    CreateQuotationError,
    QueryQuotationsError,
    UnknownError,
}

impl QuotationsError {
    pub open spec fn text(self) -> Seq<char> {
        match self {
            QuotationsError::CreateQuotationError => "error while creating quotation"@,
            QuotationsError::QueryQuotationsError => "error while querying quotations"@,
            QuotationsError::UnknownError => "an unexpected error occurred"@,
        }
    }

    pub fn to_string(&self) -> (s: String)
        ensures
            s@ == self.text(),
    {
        match self {
            QuotationsError::CreateQuotationError => String::from_str(
                "error while creating quotation",
            ),
            QuotationsError::QueryQuotationsError => String::from_str(
                "error while querying quotations",
            ),
            QuotationsError::UnknownError => String::from_str("an unexpected error occurred"),
        }
    }
}

} // verus!
