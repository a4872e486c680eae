use pkce_auth::AuthError;
use pkce_auth::AuthErrorKind;

#[test]
fn error_keeps_kind_and_cause() {
    let e = AuthError::new(AuthErrorKind::Exchange, "invalid_grant".to_string());
    assert_eq!(e.kind(), AuthErrorKind::Exchange);
    assert_eq!(e.cause(), "invalid_grant");
}

#[test]
fn error_of_fixed_text_keeps_it() {
    let e = AuthError::of(AuthErrorKind::Discovery, "no metadata");
    assert_eq!(e.kind(), AuthErrorKind::Discovery);
    assert_eq!(e.cause(), "no metadata");
}

#[test]
fn message_is_prefix_then_cause() {
    let e = AuthError::of(AuthErrorKind::Storage, "Something went wrong");
    assert_eq!(
        e.message(),
        "Error, cannot authenticate: Something went wrong"
    );
}

#[test]
fn message_of_empty_cause_is_the_prefix() {
    let e = AuthError::new(AuthErrorKind::Storage, String::new());
    assert_eq!(e.message(), "Error, cannot authenticate: ");
}

#[test]
fn greeting_is_salutation_then_name() {
    assert_eq!(pkce_auth::Greeter::new("Ada".to_string()).greet(), "Hello, Ada");
    assert_eq!(pkce_auth::Greeter::new(String::new()).greet(), "Hello, ");
}
