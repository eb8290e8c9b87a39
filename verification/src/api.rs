//! What the public API decides before and after a check: whether a request
//! carries the shared secret, and which status and message an error is
//! answered with. Reading requests and writing responses is the caller's
//! work.

use crate::bulk::BulkError;
use crate::input::{
    proxy_view, resolved, text_view, CheckEmailInput, CheckEmailInputProxy, InputView, ReacherInput,
};
use crate::text::{eq_ignore_ascii_case, str_eq_ignore_ascii_case};
use vstd::prelude::*;

verus! {

/// The status of a request that is malformed.
pub const BAD_REQUEST: u16 = 400;

/// The status of a request with a wrong secret.
pub const UNAUTHORIZED: u16 = 401;

/// The status of a request to an endpoint that is switched off.
pub const NOT_FOUND: u16 = 404;

/// The status of a failure of the service itself.
pub const INTERNAL_SERVER_ERROR: u16 = 500;

/// The largest body, in bytes, that an endpoint accepts.
pub const MAX_BODY_BYTES: u64 = 16384;

/// The name of the header that holds the shared secret.
pub const SAASIFY_SECRET_HEADER: &'static str = "x-saasify-proxy-secret";

/// The secret of a deployment that configures none.
pub const DEFAULT_SAASIFY_SECRET: &'static str = "reacher_dev_secret";

/// The rejection of a request whose secret is missing or wrong.
#[derive(Clone, Copy, Debug, PartialEq, Eq, Structural)]
pub struct IncorrectSaasifySecret {}

impl Default for IncorrectSaasifySecret {
    fn default() -> (rejection: IncorrectSaasifySecret)
        ensures
            rejection == (IncorrectSaasifySecret {  }),
    {
        IncorrectSaasifySecret {  }
    }
}

impl IncorrectSaasifySecret {
    /// The rejection.
    pub fn new() -> (rejection: IncorrectSaasifySecret)
        ensures
            rejection == (IncorrectSaasifySecret {  }),
    {
        IncorrectSaasifySecret {  }
    }

    /// The rejection's text.
    pub fn message(&self) -> (text: String)
        ensures
            text@ == "IncorrectSaasifySecret"@,
    {
        "IncorrectSaasifySecret".to_string()
    }
}

/// The secret that requests are held against: the configured one, or the
/// development secret where none is configured.
pub fn get_saasify_secret(configured: Option<String>) -> (secret: String)
    ensures
        secret@ == (match configured {
            Some(s) => s@,
            None => DEFAULT_SAASIFY_SECRET@,
        }),
{
    match configured {
        Some(s) => s,
        None => DEFAULT_SAASIFY_SECRET.to_string(),
    }
}

/// Holds the secret of a request against the configured one. They agree
/// when they are equal up to the case of ASCII letters.
pub fn check_saasify_secret(header: &str, secret: &str) -> (checked: Result<
    (),
    IncorrectSaasifySecret,
>)
    ensures
        checked is Ok <==> eq_ignore_ascii_case(header@, secret@),
{
    if str_eq_ignore_ascii_case(header, secret) {
        Ok(())
    } else {
        Err(IncorrectSaasifySecret::new())
    }
}

/// What is wrong with the input of a request to check an address.
#[derive(Debug)]
pub enum CheckEmailInputError {
    /// The body could not be read as a request; the text says why.
    PayloadError(String),
    /// The secret is missing or wrong.
    IncorrectSaasifySecret,
}

/// The model of an input error.
pub enum InputErrorView {
    PayloadError(Seq<char>),
    IncorrectSaasifySecret,
}

impl View for CheckEmailInputError {
    type V = InputErrorView;

    open spec fn view(&self) -> InputErrorView {
        match self {
            CheckEmailInputError::PayloadError(text) => InputErrorView::PayloadError(text@),
            CheckEmailInputError::IncorrectSaasifySecret => InputErrorView::IncorrectSaasifySecret,
        }
    }
}

/// The text of an input error: what it says, and a line feed.
pub open spec fn input_error_text(error: InputErrorView) -> Seq<char> {
    match error {
        InputErrorView::PayloadError(text) => text + "\n"@,
        InputErrorView::IncorrectSaasifySecret => "IncorrectSaasifySecret"@ + "\n"@,
    }
}

impl CheckEmailInputError {
    /// The error's text.
    pub fn message(&self) -> (text: String)
        ensures
            text@ == input_error_text(self@),
    {
        let mut text = match self {
            CheckEmailInputError::PayloadError(why) => why.clone(),
            CheckEmailInputError::IncorrectSaasifySecret => IncorrectSaasifySecret::new().message(),
        };
        text.append("\n");
        text
    }
}

/// The model of an optional string slice.
pub open spec fn header_view(header: Option<&str>) -> Option<Seq<char>> {
    match header {
        Some(h) => Some(h@),
        None => None,
    }
}

/// Does a request with this secret header pass, where `secret` is
/// configured?
pub open spec fn secret_accepted(header: Option<Seq<char>>, secret: Seq<char>) -> bool {
    header matches Some(h) && eq_ignore_ascii_case(h, secret)
}

/// Makes sure that a request carries the configured secret: a request
/// without the header, or with another secret, is refused.
pub fn sanitize_input(header: Option<&str>, secret: &str) -> (checked: Result<
    (),
    CheckEmailInputError,
>)
    ensures
        checked is Ok <==> secret_accepted(header_view(header), secret@),
        checked matches Err(e) ==> e@ == InputErrorView::IncorrectSaasifySecret,
{
    match header {
        None => Err(CheckEmailInputError::IncorrectSaasifySecret),
        Some(h) => match check_saasify_secret(h, secret) {
            Ok(()) => Ok(()),
            Err(_) => Err(CheckEmailInputError::IncorrectSaasifySecret),
        },
    }
}

/// The body of an error response: the error it reports.
#[derive(Debug)]
pub struct ReacherOutputError<T> {
    pub error: T,
}

impl<T> ReacherOutputError<T> {
    /// The response that reports `error`.
    pub fn new(error: T) -> (response: ReacherOutputError<T>)
        ensures
            response.error == error,
    {
        ReacherOutputError { error }
    }
}

/// An error response: a status and a message.
#[derive(Debug)]
pub struct ReacherResponseError {
    pub code: u16,
    pub message: String,
}

/// The model of an error response.
pub struct ResponseErrorView {
    pub code: u16,
    pub message: Seq<char>,
}

impl View for ReacherResponseError {
    type V = ResponseErrorView;

    open spec fn view(&self) -> ResponseErrorView {
        ResponseErrorView { code: self.code, message: self.message@ }
    }
}

impl ReacherResponseError {
    /// The error response with the given status and message.
    pub fn new(code: u16, message: String) -> (response: ReacherResponseError)
        ensures
            response@ == (ResponseErrorView { code, message: message@ }),
    {
        ReacherResponseError { code, message }
    }
}

/// The response to a failure of the store: the status is 500 and the
/// message is the failure's description.
pub fn pg_to_warp_error(description: String) -> (response: ReacherResponseError)
    ensures
        response@ == (ResponseErrorView { code: INTERNAL_SERVER_ERROR, message: description@ }),
{
    ReacherResponseError::new(INTERNAL_SERVER_ERROR, description)
}

/// The model of an optional error response.
pub open spec fn response_view(response: Option<ReacherResponseError>) -> Option<
    ResponseErrorView,
> {
    match response {
        Some(r) => Some(r@),
        None => None,
    }
}

/// The response to a rejected request: the error response that the
/// rejection carries, or, where it carries none, status 500 and the
/// rejection's description.
pub open spec fn rejection_response(
    found: Option<ResponseErrorView>,
    description: Seq<char>,
) -> ResponseErrorView {
    match found {
        Some(r) => r,
        None => ResponseErrorView {
            code: INTERNAL_SERVER_ERROR,
            message: "Unhandled rejection: "@ + description,
        },
    }
}

/// The response to a rejected request.
pub fn handle_rejection(found: Option<ReacherResponseError>, description: &str) -> (response:
    ReacherResponseError)
    ensures
        response@ == rejection_response(response_view(found), description@),
{
    match found {
        Some(r) => r,
        None => {
            let mut message = "Unhandled rejection: ".to_string();
            message.append(description);
            ReacherResponseError::new(INTERNAL_SERVER_ERROR, message)
        },
    }
}

/// The message of a request that lacks the secret header.
pub open spec fn missing_header_text() -> Seq<char> {
    "Missing request header \"x-saasify-proxy-secret\""@
}

/// The message of a request whose secret header is wrong.
pub open spec fn invalid_header_text() -> Seq<char> {
    "Invalid request header \"x-saasify-proxy-secret\""@
}

/// What the header check answers. Where no secret is configured every
/// request passes. Where one is, a request without the header is answered
/// with 400, one with another secret with 401, and one with the secret, up
/// to the case of ASCII letters, passes.
pub open spec fn header_verdict(configured: Option<Seq<char>>, header: Option<Seq<char>>) -> Option<
    ResponseErrorView,
> {
    match configured {
        None => None,
        Some(secret) => match header {
            None => Some(ResponseErrorView { code: BAD_REQUEST, message: missing_header_text() }),
            Some(h) => if eq_ignore_ascii_case(h, secret) {
                None
            } else {
                Some(ResponseErrorView { code: UNAUTHORIZED, message: invalid_header_text() })
            },
        },
    }
}

/// Holds the secret header of a request against the configured secret.
pub fn check_header(configured: Option<&str>, header: Option<&str>) -> (checked: Result<
    (),
    ReacherResponseError,
>)
    ensures
        match checked {
            Ok(()) => header_verdict(header_view(configured), header_view(header)) is None,
            Err(r) => header_verdict(header_view(configured), header_view(header)) == Some(r@),
        },
{
    match configured {
        None => Ok(()),
        Some(secret) => match header {
            None => Err(
                ReacherResponseError::new(
                    BAD_REQUEST,
                    "Missing request header \"x-saasify-proxy-secret\"".to_string(),
                ),
            ),
            Some(h) => {
                if str_eq_ignore_ascii_case(h, secret) {
                    Ok(())
                } else {
                    Err(
                        ReacherResponseError::new(
                            UNAUTHORIZED,
                            "Invalid request header \"x-saasify-proxy-secret\"".to_string(),
                        ),
                    )
                }
            },
        },
    }
}

/// Lets a request to a bulk endpoint pass where the bulk endpoints are
/// switched on, and answers it with 404 where they are not.
pub fn with_bulk(is_bulk_enabled: bool) -> (checked: Result<(), ReacherResponseError>)
    ensures
        checked is Ok <==> is_bulk_enabled,
        checked matches Err(r) ==> r@ == (ResponseErrorView {
            code: NOT_FOUND,
            message: "Not Found"@,
        }),
{
    if is_bulk_enabled {
        Ok(())
    } else {
        Err(ReacherResponseError::new(NOT_FOUND, "Not Found".to_string()))
    }
}

/// What `POST /check_email` does with a request before the check: a request
/// that the header check refuses is answered with that refusal, and any
/// other is checked with the input it asks for.
pub fn post_check_email(
    configured: Option<&str>,
    header: Option<&str>,
    body: ReacherInput,
    fallback_from_email: Option<String>,
    fallback_proxy: Option<CheckEmailInputProxy>,
) -> (accepted: Result<CheckEmailInput, ReacherResponseError>)
    ensures
        match accepted {
            Ok(input) => {
                &&& header_verdict(header_view(configured), header_view(header)) is None
                &&& input@ == resolved(
                    body@,
                    text_view(fallback_from_email),
                    proxy_view(fallback_proxy),
                )
            },
            Err(r) => header_verdict(header_view(configured), header_view(header)) == Some(r@),
        },
{
    match check_header(configured, header) {
        Ok(()) => Ok(body.into_check_input(fallback_from_email, fallback_proxy)),
        Err(refusal) => Err(refusal),
    }
}

/// The model of the error of a bulk endpoint.
pub enum BulkErrorView {
    EmptyInput,
    Db(Seq<char>),
    Csv,
    Json,
}

/// The model of the error of a bulk endpoint.
pub open spec fn bulk_error_view(error: BulkError) -> BulkErrorView {
    match error {
        BulkError::EmptyInput => BulkErrorView::EmptyInput,
        BulkError::Db(text) => BulkErrorView::Db(text@),
        BulkError::Csv => BulkErrorView::Csv,
        BulkError::Json => BulkErrorView::Json,
    }
}

/// The response to the error of a bulk endpoint: a request without
/// addresses is answered with 400, a failure of the store or of writing the
/// results with 500.
pub open spec fn bulk_response(error: BulkErrorView) -> ResponseErrorView {
    match error {
        BulkErrorView::EmptyInput => ResponseErrorView {
            code: BAD_REQUEST,
            message: "empty input"@,
        },
        BulkErrorView::Db(text) => ResponseErrorView { code: INTERNAL_SERVER_ERROR, message: text },
        BulkErrorView::Csv => ResponseErrorView {
            code: INTERNAL_SERVER_ERROR,
            message: "the results could not be written as CSV"@,
        },
        BulkErrorView::Json => ResponseErrorView {
            code: INTERNAL_SERVER_ERROR,
            message: "the results could not be written as JSON"@,
        },
    }
}

/// The response to the error of a bulk endpoint.
pub fn bulk_error_response(error: BulkError) -> (response: ReacherResponseError)
    ensures
        response@ == bulk_response(bulk_error_view(error)),
{
    match error {
        BulkError::EmptyInput => ReacherResponseError::new(BAD_REQUEST, "empty input".to_string()),
        BulkError::Db(text) => pg_to_warp_error(text),
        BulkError::Csv => ReacherResponseError::new(
            INTERNAL_SERVER_ERROR,
            "the results could not be written as CSV".to_string(),
        ),
        BulkError::Json => ReacherResponseError::new(
            INTERNAL_SERVER_ERROR,
            "the results could not be written as JSON".to_string(),
        ),
    }
}

} // verus!
