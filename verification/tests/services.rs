use api::error::Error;
use api::identity::{
    admin_flow_error, flow_error, FlowFailure, UiText, UiTextType, API_KEY_PREFIX,
    METADATA_PATCH_OP, METADATA_PATCH_PATH,
};
use api::models::{AdminSession, CustomerSession, Identity, MetadataPublic, Session};
use api::services::{next_admin_email, ObjectStorageOperation, ADMIN_EMAIL_PAUSE_SECS, EMAIL_CHARSET};

#[test]
fn object_storage_operation_names() {
    assert_eq!(ObjectStorageOperation::Get.to_string(), "Get");
    assert_eq!(ObjectStorageOperation::Put.to_string(), "Put");
    assert_eq!(ObjectStorageOperation::parse("Get"), Some(ObjectStorageOperation::Get));
    assert_eq!(ObjectStorageOperation::parse("Put"), Some(ObjectStorageOperation::Put));
    assert_eq!(ObjectStorageOperation::parse("GET"), None);
}

#[test]
fn administrators_are_notified_in_order() {
    let admins = vec!["a@example.com".to_string(), "b@example.com".to_string()];
    assert_eq!(next_admin_email(&admins, 0), Some("a@example.com".to_string()));
    assert_eq!(next_admin_email(&admins, 1), Some("b@example.com".to_string()));
    assert_eq!(next_admin_email(&admins, 2), None);
    assert_eq!(next_admin_email(&vec![], 0), None);
    assert_eq!(ADMIN_EMAIL_PAUSE_SECS, 1);
    assert_eq!(EMAIL_CHARSET, "UTF-8");
}

fn session(id: &str) -> Session {
    Session {
        id: id.to_string(),
        identity: Identity {
            id: "c1".to_string(),
            email: "c1@example.com".to_string(),
            metadata_public: MetadataPublic::default(),
        },
    }
}

#[test]
fn sessions_from_the_request() {
    assert_eq!(
        CustomerSession::from_extension(Some(CustomerSession(session("s1")))),
        Ok(CustomerSession(session("s1")))
    );
    assert_eq!(CustomerSession::from_extension(None), Err((401, "Missing customer session")));
    assert_eq!(
        AdminSession::from_extension(Some(AdminSession(session("s2")))),
        Ok(AdminSession(session("s2")))
    );
    assert_eq!(AdminSession::from_extension(None), Err((401, "Missing admin session")));
}

#[test]
fn failed_flows() {
    let refused = FlowFailure::Refused(Some(vec![UiText { id: 4000034, text_type: UiTextType::Error }]));
    assert_eq!(flow_error(refused.clone()), Error::BreachedPasswordRegistrationError);
    assert_eq!(admin_flow_error(refused), Error::UnknownError);
    let bad_password = FlowFailure::Refused(Some(vec![UiText { id: 4000006, text_type: UiTextType::Error }]));
    assert_eq!(flow_error(bad_password.clone()), Error::InvalidCredentialsLoginError);
    assert_eq!(admin_flow_error(bad_password), Error::InvalidCredentialsLoginError);
    assert_eq!(flow_error(FlowFailure::Refused(None)), Error::UnknownError);
    assert_eq!(flow_error(FlowFailure::Other), Error::UnknownError);
    assert_eq!(admin_flow_error(FlowFailure::Other), Error::UnknownError);
    assert_eq!(API_KEY_PREFIX, "Bearer");
    assert_eq!((METADATA_PATCH_OP, METADATA_PATCH_PATH), ("add", "/metadata_public"));
}
