use reacher_backend::api::{
    check_header, check_saasify_secret, get_saasify_secret, handle_rejection, pg_to_warp_error,
    sanitize_input, with_bulk, CheckEmailInputError, IncorrectSaasifySecret, ReacherOutputError,
    ReacherResponseError, BAD_REQUEST, DEFAULT_SAASIFY_SECRET, INTERNAL_SERVER_ERROR,
    MAX_BODY_BYTES, NOT_FOUND, SAASIFY_SECRET_HEADER, UNAUTHORIZED,
};

#[test]
fn constants_have_their_values() {
    assert_eq!(SAASIFY_SECRET_HEADER, "x-saasify-proxy-secret");
    assert_eq!(DEFAULT_SAASIFY_SECRET, "reacher_dev_secret");
    assert_eq!(MAX_BODY_BYTES, 1024 * 16);
    assert_eq!((BAD_REQUEST, UNAUTHORIZED, NOT_FOUND, INTERNAL_SERVER_ERROR), (400, 401, 404, 500));
}

#[test]
fn secret_falls_back_to_the_development_secret() {
    assert_eq!(get_saasify_secret(None), "reacher_dev_secret");
    assert_eq!(get_saasify_secret(Some("s3cret".into())), "s3cret");
}

#[test]
fn secret_is_compared_without_ascii_case() {
    assert!(check_saasify_secret("reacher_dev_secret", "reacher_dev_secret").is_ok());
    assert!(check_saasify_secret("REACHER_DEV_SECRET", "reacher_dev_secret").is_ok());
    assert_eq!(check_saasify_secret("incorrect", "reacher_dev_secret"), Err(IncorrectSaasifySecret {}));
    assert!(check_saasify_secret("", "reacher_dev_secret").is_err());
    assert!(check_saasify_secret("reacher_dev_secret ", "reacher_dev_secret").is_err());
}

#[test]
fn missing_secret_is_an_input_error() {
    let err = sanitize_input(None, "reacher_dev_secret").unwrap_err();
    assert!(matches!(err, CheckEmailInputError::IncorrectSaasifySecret));
    assert_eq!(err.message(), "IncorrectSaasifySecret\n");
    let response = ReacherOutputError::new(err);
    assert_eq!(response.error.message(), "IncorrectSaasifySecret\n");
}

#[test]
fn incorrect_secret_is_an_input_error() {
    let err = sanitize_input(Some("incorrect"), "reacher_dev_secret").unwrap_err();
    assert_eq!(err.message(), "IncorrectSaasifySecret\n");
    assert!(sanitize_input(Some("reacher_dev_secret"), "reacher_dev_secret").is_ok());
}

#[test]
fn payload_error_says_why() {
    let err = CheckEmailInputError::PayloadError("missing field `to_email`".into());
    assert_eq!(err.message(), "missing field `to_email`\n");
}

#[test]
fn incorrect_secret_has_its_text() {
    assert_eq!(IncorrectSaasifySecret::new().message(), "IncorrectSaasifySecret");
    assert_eq!(IncorrectSaasifySecret::default(), IncorrectSaasifySecret::new());
}

#[test]
fn header_check_without_configured_secret_lets_everything_pass() {
    assert!(check_header(None, None).is_ok());
    assert!(check_header(None, Some("anything")).is_ok());
}

#[test]
fn header_check_answers_missing_header_with_400() {
    let err = check_header(Some("secret"), None).unwrap_err();
    assert_eq!(err.code, 400);
    assert_eq!(err.message, "Missing request header \"x-saasify-proxy-secret\"");
}

#[test]
fn header_check_answers_wrong_secret_with_401() {
    let err = check_header(Some("secret"), Some("foo")).unwrap_err();
    assert_eq!(err.code, 401);
    assert_eq!(err.message, "Invalid request header \"x-saasify-proxy-secret\"");
    assert!(check_header(Some("secret"), Some("SECRET")).is_ok());
}

#[test]
fn store_failure_is_a_500() {
    let response = pg_to_warp_error("connection refused".into());
    assert_eq!(response.code, 500);
    assert_eq!(response.message, "connection refused");
    let response = ReacherResponseError::new(418, "teapot".into());
    assert_eq!((response.code, response.message.as_str()), (418, "teapot"));
}

#[test]
fn rejection_keeps_its_response_or_becomes_a_500() {
    let found = ReacherResponseError::new(400, "empty input".into());
    let response = handle_rejection(Some(found), "ignored");
    assert_eq!((response.code, response.message.as_str()), (400, "empty input"));
    let response = handle_rejection(None, "MethodNotAllowed");
    assert_eq!(response.code, 500);
    assert_eq!(response.message, "Unhandled rejection: MethodNotAllowed");
}

#[test]
fn bulk_endpoints_answer_404_when_switched_off() {
    assert!(with_bulk(true).is_ok());
    let err = with_bulk(false).unwrap_err();
    assert_eq!((err.code, err.message.as_str()), (404, "Not Found"));
}

use reacher_backend::api::{bulk_error_response, post_check_email};
use reacher_backend::bulk::BulkError;
use reacher_backend::input::ReacherInput;

#[test]
fn empty_bulk_input_is_answered_with_400() {
    let response = bulk_error_response(BulkError::EmptyInput);
    assert_eq!((response.code, response.message.as_str()), (400, "empty input"));
}

#[test]
fn other_bulk_errors_are_answered_with_500() {
    let response = bulk_error_response(BulkError::Db("pool timed out".into()));
    assert_eq!((response.code, response.message.as_str()), (500, "pool timed out"));
    assert_eq!(bulk_error_response(BulkError::Csv).code, 500);
    assert_eq!(bulk_error_response(BulkError::Json).code, 500);
}

#[test]
fn check_email_without_the_secret_header_is_answered_with_400() {
    let body = ReacherInput::new("foo@bar.baz".into());
    let refusal = post_check_email(Some("reacher_dev_secret"), None, body, None, None).unwrap_err();
    assert_eq!(refusal.code, 400);
    assert_eq!(refusal.message, "Missing request header \"x-saasify-proxy-secret\"");
}

#[test]
fn check_email_with_a_wrong_secret_is_answered_with_401() {
    let body = ReacherInput::new("foo@bar.baz".into());
    let refusal = post_check_email(Some("reacher_dev_secret"), Some("foo"), body, None, None).unwrap_err();
    assert_eq!(refusal.code, 401);
}

#[test]
fn check_email_with_the_secret_is_checked_with_the_input_it_asks_for() {
    let body = ReacherInput::new("foo@bar.baz".into());
    let input = post_check_email(
        Some("reacher_dev_secret"),
        Some("reacher_dev_secret"),
        body,
        Some("me@deploy.org".into()),
        None,
    )
    .unwrap();
    assert_eq!(input.to_email, "foo@bar.baz");
    assert_eq!(input.from_email, "me@deploy.org");
    assert_eq!(input.hello_name, "gmail.com");
}
