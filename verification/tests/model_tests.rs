use cli_app::apperr::{AppError, ServiceError};
use cli_app::hello::{generate_message, hello_message, message_for};
use cli_app::model::{PostStatus, UserStatus};
use cli_app::setting::Setting;
use cli_app::strutil::str_eq;
use cli_app::token::AuthError;

#[test]
fn user_status_codes_round_trip() {
    assert_eq!(i32::from(UserStatus::Active), 1);
    assert_eq!(i32::from(UserStatus::Blocked), 2);
    assert!(matches!(UserStatus::from(1), UserStatus::Active));
    assert!(matches!(UserStatus::from(2), UserStatus::Blocked));
    // unknown codes fall back to Active
    assert!(matches!(UserStatus::from(0), UserStatus::Active));
    assert!(matches!(UserStatus::from(42), UserStatus::Active));
}

#[test]
fn post_status_codes_round_trip() {
    assert_eq!(i32::from(PostStatus::Draft), 1);
    assert_eq!(i32::from(PostStatus::Published), 2);
    assert!(matches!(PostStatus::from(1), PostStatus::Draft));
    assert!(matches!(PostStatus::from(2), PostStatus::Published));
    assert!(matches!(PostStatus::from(-7), PostStatus::Draft));
}

#[test]
fn app_error_classifies_service_failures() {
    let not_found = AppError::of_service_error(ServiceError::NotFound, "user 9".to_string());
    assert_eq!(not_found.status_code(), 404);
    assert_eq!(not_found.message().as_str(), "user 9");

    let internal = AppError::of_service_error(ServiceError::Encoding, "hash".to_string());
    assert_eq!(internal.status_code(), 500);
}

#[test]
fn app_error_maps_every_auth_failure_to_unauthorized() {
    for e in [
        AuthError::MissingToken,
        AuthError::Malformed,
        AuthError::InvalidSignature,
        AuthError::Expired,
        AuthError::InvalidCredentials,
    ] {
        assert_eq!(AppError::of_auth_error(e, "no".to_string()).status_code(), 401);
    }
}

#[test]
fn app_error_new_keeps_its_parts() {
    let e = AppError::new(418, "teapot".to_string());
    assert_eq!(e.status_code(), 418);
    assert_eq!(e.message().as_str(), "teapot");
}

#[test]
fn setting_keeps_its_port() {
    let s = Setting::new(8080);
    assert_eq!(s.get_port(), 8080);
}

#[test]
fn message_for_depends_only_on_the_coin() {
    assert_eq!(message_for(false).unwrap(), "Hello World");
    assert!(message_for(true).is_err());
}

#[test]
fn generate_message_never_invents_another_greeting() {
    for _ in 0..32 {
        if let Ok(m) = generate_message() {
            assert_eq!(m, "Hello World");
        }
    }
}

#[test]
fn hello_message_names_the_configuration_source() {
    let loc = "config.json".to_string();
    assert_eq!(
        hello_message(Some(&loc)),
        "\nhello world! Using configuration from config.json\n\n"
    );
    assert_eq!(
        hello_message(None),
        "\nhello world! Using configuration from missing config location\n\n"
    );
}

#[test]
fn str_eq_agrees_with_equality() {
    assert!(str_eq("", ""));
    assert!(str_eq("abc", "abc"));
    assert!(!str_eq("abc", "abd"));
    assert!(!str_eq("abc", "ab"));
    assert!(str_eq("naïve", "naïve"));
    assert!(!str_eq("naïve", "naive"));
}
