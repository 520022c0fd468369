//! What the identity provider's refusals mean for the service.

use vstd::prelude::*;
use crate::error::Error;

verus! {

/// Kind of a message of the identity provider's user interface.
#[derive(Debug, Clone, Copy, PartialEq, Eq, Structural)]
pub enum UiTextType {
    Error,
    Info,
    Success,
}

/// A message of the identity provider's user interface: its id and kind.
#[derive(Debug, Clone, Copy, PartialEq, Eq, Structural)]
pub struct UiText {
    pub id: i64,
    pub text_type: UiTextType,
}

/// Error ids of the identity provider.
pub const INVALID_CREDENTIALS_ID: i64 = 4000006;
pub const EMAIL_TAKEN_ID: i64 = 4000028;
pub const BREACHED_PASSWORD_ID: i64 = 4000034;

/// The id of the first error message, or 0 when there is none.
pub open spec fn first_error_id(messages: Seq<UiText>) -> i64
    decreases messages.len(),
{
    if messages.len() == 0 {
        0
    } else if messages[0].text_type == UiTextType::Error {
        messages[0].id
    } else {
        first_error_id(messages.drop_first())
    }
}

/// The error for a customer's refused registration or login.
pub open spec fn customer_error(id: i64) -> Error {
    if id == INVALID_CREDENTIALS_ID {
        Error::InvalidCredentialsLoginError
    } else if id == EMAIL_TAKEN_ID {
        Error::EmailTakenRegistrationError
    } else if id == BREACHED_PASSWORD_ID {
        Error::BreachedPasswordRegistrationError
    } else {
        Error::UnknownError
    }
}

/// The error for an administrator's refused login.
pub open spec fn admin_error(id: i64) -> Error {
    if id == INVALID_CREDENTIALS_ID {
        Error::InvalidCredentialsLoginError
    } else {
        Error::UnknownError
    }
}

/// The id of the first error message, or 0.
pub fn extract_error_id(error_messages: &Vec<UiText>) -> (id: i64)
    ensures
        id == first_error_id(error_messages@),
{
    let mut i: usize = 0;
    proof {
        assert(error_messages@.subrange(0, error_messages@.len() as int) =~= error_messages@);
    }
    while i < error_messages.len()
        invariant
            i <= error_messages.len(),
            first_error_id(error_messages@.subrange(i as int, error_messages@.len() as int))
                == first_error_id(error_messages@),
        decreases error_messages.len() - i,
    {
        let ghost rest = error_messages@.subrange(i as int, error_messages@.len() as int);
        proof {
            assert(rest.drop_first() =~= error_messages@.subrange(i + 1, error_messages@.len() as int));
        }
        match error_messages[i].text_type {
            UiTextType::Error => {
                return error_messages[i].id;
            },
            _ => {},
        }
        i = i + 1;
    }
    0
}

/// The error for a customer's refused registration or login, from the provider's messages.
pub fn match_error(error_messages: &Vec<UiText>) -> (e: Error)
    ensures
        e == customer_error(first_error_id(error_messages@)),
{
    let id = extract_error_id(error_messages);
    if id == INVALID_CREDENTIALS_ID {
        Error::InvalidCredentialsLoginError
    } else if id == EMAIL_TAKEN_ID {
        Error::EmailTakenRegistrationError
    } else if id == BREACHED_PASSWORD_ID {
        Error::BreachedPasswordRegistrationError
    } else {
        Error::UnknownError
    }
}

/// The error for an administrator's refused login, from the provider's messages.
pub fn match_admin_error(error_messages: &Vec<UiText>) -> (e: Error)
    ensures
        e == admin_error(first_error_id(error_messages@)),
{
    let id = extract_error_id(error_messages);
    if id == INVALID_CREDENTIALS_ID {
        Error::InvalidCredentialsLoginError
    } else {
        Error::UnknownError
    }
}

/// How a registration or login flow of the identity provider failed.
#[derive(Debug, Clone, PartialEq, Eq)]
pub enum FlowFailure {
    /// The provider answered with an error; `Some` with the messages of its user interface
    /// when it refused the form (status 400), `None` for any other answer.
    Refused(Option<Vec<UiText>>),
    /// The request did not get an answer the client could read.
    Other,
}

/// The messages that a failure carries: those of a refused form, none otherwise.
pub open spec fn failure_messages(failure: FlowFailure) -> Seq<UiText> {
    match failure {
        FlowFailure::Refused(Some(messages)) => messages@,
        _ => Seq::empty(),
    }
}

/// The error for a customer's failed registration or login: a refused form is read by its
/// first error message; any other failure is an unknown error.
pub fn flow_error(failure: FlowFailure) -> (e: Error)
    ensures
        e == (match failure {
            FlowFailure::Refused(_) => customer_error(first_error_id(failure_messages(failure))),
            FlowFailure::Other => Error::UnknownError,
        }),
{
    match failure {
        FlowFailure::Refused(Some(messages)) => match_error(&messages),
        FlowFailure::Refused(None) => match_error(&Vec::new()),
        FlowFailure::Other => Error::UnknownError,
    }
}

/// The error for an administrator's failed login, in the same way.
pub fn admin_flow_error(failure: FlowFailure) -> (e: Error)
    ensures
        e == (match failure {
            FlowFailure::Refused(_) => admin_error(first_error_id(failure_messages(failure))),
            FlowFailure::Other => Error::UnknownError,
        }),
{
    match failure {
        FlowFailure::Refused(Some(messages)) => match_admin_error(&messages),
        FlowFailure::Refused(None) => match_admin_error(&Vec::new()),
        FlowFailure::Other => Error::UnknownError,
    }
}

/// Prefix of the key with which the service authenticates to the identity provider.
pub const API_KEY_PREFIX: &'static str = "Bearer";

/// The JSON patch that sets an identity's public metadata: operation and path.
pub const METADATA_PATCH_OP: &'static str = "add";
pub const METADATA_PATCH_PATH: &'static str = "/metadata_public";

} // verus!
