use api::error::Error;
use api::identity::{extract_error_id, match_admin_error, match_error, UiText, UiTextType};

fn msg(id: i64, text_type: UiTextType) -> UiText {
    UiText { id, text_type }
}

#[test]
fn first_error_message_decides() {
    let messages = vec![
        msg(1010003, UiTextType::Info),
        msg(4000028, UiTextType::Error),
        msg(4000006, UiTextType::Error),
    ];
    assert_eq!(extract_error_id(&messages), 4000028);
    assert_eq!(match_error(&messages), Error::EmailTakenRegistrationError);
}

#[test]
fn no_error_message_gives_zero() {
    assert_eq!(extract_error_id(&vec![]), 0);
    let messages = vec![msg(4000006, UiTextType::Info), msg(4000034, UiTextType::Success)];
    assert_eq!(extract_error_id(&messages), 0);
    assert_eq!(match_error(&messages), Error::UnknownError);
}

#[test]
fn customer_errors() {
    assert_eq!(
        match_error(&vec![msg(4000006, UiTextType::Error)]),
        Error::InvalidCredentialsLoginError
    );
    assert_eq!(
        match_error(&vec![msg(4000034, UiTextType::Error)]),
        Error::BreachedPasswordRegistrationError
    );
    assert_eq!(match_error(&vec![msg(4000001, UiTextType::Error)]), Error::UnknownError);
}

#[test]
fn admin_errors() {
    assert_eq!(
        match_admin_error(&vec![msg(4000006, UiTextType::Error)]),
        Error::InvalidCredentialsLoginError
    );
    assert_eq!(match_admin_error(&vec![msg(4000028, UiTextType::Error)]), Error::UnknownError);
    assert_eq!(match_admin_error(&vec![]), Error::UnknownError);
}
