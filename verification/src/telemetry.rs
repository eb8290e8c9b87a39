//! What is reported to the telemetry sink, and what is kept from it.
//!
//! The functions here build events; sending them is the caller's work. Every
//! text of an error event is redacted: the part of the address before the
//! `@` is replaced by `***`.

use crate::classifier::{is_known_noise, known_noise};
use crate::output::{CheckEmailOutput, OutputView};
use crate::text::{replaced, str_replace};
use vstd::prelude::*;

verus! {

/// What stands in for a redacted username.
pub open spec fn redaction() -> Seq<char> {
    "***"@
}

/// A text with every occurrence of the username redacted.
pub open spec fn redacted(input: Seq<char>, username: Seq<char>) -> Seq<char> {
    replaced(input, username, redaction())
}

/// Replaces every occurrence of `username` in `input` by `***`.
pub fn redact(input: &str, username: &str) -> (out: String)
    ensures
        out@ == redacted(input@, username@),
{
    str_replace(input, username, "***")
}

/// An error event for the telemetry sink. Its texts are redacted.
#[derive(Debug)]
pub struct ErrorEvent {
    /// The description of the error.
    pub message: String,
    /// The description of the output that the error came with, if there is
    /// one.
    pub output: Option<String>,
}

/// The model of an error event.
pub struct ErrorEventView {
    pub message: Seq<char>,
    pub output: Option<Seq<char>>,
}

impl View for ErrorEvent {
    type V = ErrorEventView;

    open spec fn view(&self) -> ErrorEventView {
        ErrorEventView {
            message: self.message@,
            output: match self.output {
                Some(text) => Some(text@),
                None => None,
            },
        }
    }
}

/// An info event for the telemetry sink, sent once for each check.
#[derive(Debug)]
pub struct MetricsEvent {
    /// The message.
    pub message: String,
    /// The time the check took, in milliseconds.
    pub duration: u128,
    /// The domain that was checked.
    pub domain: String,
}

/// The model of an info event.
pub struct MetricsEventView {
    pub message: Seq<char>,
    pub duration: u128,
    pub domain: Seq<char>,
}

impl View for MetricsEvent {
    type V = MetricsEventView;

    open spec fn view(&self) -> MetricsEventView {
        MetricsEventView { message: self.message@, duration: self.duration, domain: self.domain@ }
    }
}

/// The error event for a message and, if there is one, the description of
/// the output it came with, both redacted.
pub open spec fn error_event(
    message: Seq<char>,
    result: Option<Seq<char>>,
    username: Seq<char>,
) -> ErrorEventView {
    ErrorEventView {
        message: redacted(message, username),
        output: match result {
            Some(text) => Some(redacted(text, username)),
            None => None,
        },
    }
}

/// The model of an optional string slice.
pub open spec fn slice_view(text: Option<&str>) -> Option<Seq<char>> {
    match text {
        Some(t) => Some(t@),
        None => None,
    }
}

/// The error event for `message` and the description `result` of the output
/// it came with, with every occurrence of `username` redacted.
pub fn error(message: String, result: Option<&str>, username: &str) -> (event: ErrorEvent)
    ensures
        event@ == error_event(message@, slice_view(result), username@),
{
    let output = match result {
        Some(text) => Some(redact(text, username)),
        None => None,
    };
    ErrorEvent { message: redact(message.as_str(), username), output }
}

/// The info event for `message`, with the time the check took and the
/// domain that was checked.
pub fn metrics(message: String, duration: u128, domain: &str) -> (event: MetricsEvent)
    ensures
        event@ == (MetricsEventView { message: message@, duration, domain: domain@ }),
{
    MetricsEvent { message, duration, domain: domain.to_string() }
}

/// Does some sub-result of the output hold an error?
pub open spec fn has_errors(o: OutputView) -> bool {
    o.misc is Err || o.mx is Err || o.smtp is Err
}

/// Is the output's error one to report? Errors of the misc check and of the
/// MX lookup are; an SMTP error is unless it is known noise.
pub open spec fn must_report(o: OutputView) -> bool {
    o.misc is Err || o.mx is Err || (o.smtp matches Err(e) && !known_noise(e))
}

/// Does some sub-result of the output hold an error, known or not?
pub fn has_known_errors(result: &CheckEmailOutput) -> (any: bool)
    ensures
        any == has_errors(result@),
{
    result.misc().is_err() || result.mx().is_err() || result.smtp().is_err()
}

/// Is the output's error one to report?
pub fn is_unknown_error(result: &CheckEmailOutput) -> (report: bool)
    ensures
        report == must_report(result@),
{
    if result.misc().is_err() || result.mx().is_err() {
        return true;
    }
    match result.smtp() {
        Err(e) => !is_known_noise(e),
        Ok(_) => false,
    }
}

/// The event to report for an output, if its error is one to report:
/// `error_text` describes the error and `result_text` the output, and both
/// are redacted of the output's username.
pub fn log_unknown_errors(result: &CheckEmailOutput, error_text: String, result_text: &str) -> (event:
    Option<ErrorEvent>)
    ensures
        match event {
            Some(e) => must_report(result@) && e@ == error_event(
                error_text@,
                Some(result_text@),
                result@.syntax.username,
            ),
            None => !must_report(result@),
        },
{
    if is_unknown_error(result) {
        Some(error(error_text, Some(result_text), result.syntax().username().as_str()))
    } else {
        None
    }
}

} // verus!
