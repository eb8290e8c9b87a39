use reacher_backend::telemetry::redact;

#[test]
fn test_redact() {
    assert_eq!("***@gmail.com", redact("someone@gmail.com", "someone"));
    assert_eq!(
        "my email is ***@gmail.com.",
        redact("my email is someone@gmail.com.", "someone")
    );
    assert_eq!(
        "my email is ***@gmail.com., I repeat, my email is ***@gmail.com.",
        redact(
            "my email is someone@gmail.com., I repeat, my email is someone@gmail.com.",
            "someone"
        )
    );
    assert_eq!(
        "*** @ gmail . com",
        redact("someone @ gmail . com", "someone")
    );
    assert_eq!("*** is here.", redact("someone is here.", "someone"));
}

use reacher_backend::classifier::{IoFailure, SmtpError};
use reacher_backend::output::{
    CheckEmailOutput, MiscDetails, MxDetails, ProbeError, SmtpDetails, SyntaxDetails,
};
use reacher_backend::telemetry::{
    error, has_known_errors, is_unknown_error, log_unknown_errors, metrics,
};

fn report_for(
    mx: Result<MxDetails, ProbeError>,
    misc: Result<MiscDetails, ProbeError>,
    smtp: Result<SmtpDetails, SmtpError>,
) -> CheckEmailOutput {
    CheckEmailOutput::new(
        "someone@gmail.com".into(),
        SyntaxDetails::valid("someone@gmail.com".into(), "someone".into(), "gmail.com".into()),
        mx,
        misc,
        smtp,
    )
}

fn records() -> Result<MxDetails, ProbeError> {
    Ok(MxDetails::new(vec!["mx.gmail.com".into()]))
}

#[test]
fn redact_leaves_text_without_the_username_alone() {
    assert_eq!(redact("nobody is here", "someone"), "nobody is here");
    assert_eq!(redact("", "someone"), "");
}

#[test]
fn error_event_is_redacted() {
    let event = error("rejected someone@gmail.com".into(), Some("input: someone"), "someone");
    assert_eq!(event.message, "rejected ***@gmail.com");
    assert_eq!(event.output.as_deref(), Some("input: ***"));
    let event = error("someone".into(), None, "someone");
    assert_eq!(event.message, "***");
    assert!(event.output.is_none());
}

#[test]
fn metrics_event_keeps_its_values() {
    let event = metrics("is_reachable=Safe".into(), 1234, "gmail.com");
    assert_eq!(event.message, "is_reachable=Safe");
    assert_eq!(event.duration, 1234);
    assert_eq!(event.domain, "gmail.com");
}

#[test]
fn output_without_error_reports_nothing() {
    let o = report_for(records(), Ok(MiscDetails::default()), Ok(SmtpDetails::default()));
    assert!(!has_known_errors(&o));
    assert!(!is_unknown_error(&o));
    assert!(log_unknown_errors(&o, "e".into(), "r").is_none());
}

#[test]
fn misc_and_mx_errors_are_reported() {
    let o = report_for(records(), Err(ProbeError { text: "lists".into() }), Ok(SmtpDetails::default()));
    assert!(has_known_errors(&o));
    assert!(is_unknown_error(&o));
    let o = report_for(Err(ProbeError { text: "dns".into() }), Ok(MiscDetails::default()), Ok(SmtpDetails::default()));
    assert!(has_known_errors(&o));
    let event = log_unknown_errors(&o, "dns failed for someone".into(), "someone@gmail.com").unwrap();
    assert_eq!(event.message, "dns failed for ***");
    assert_eq!(event.output.as_deref(), Some("***@gmail.com"));
}

#[test]
fn known_smtp_errors_are_errors_but_not_reported() {
    let known = [
        SmtpError::Permanent { message: vec!["IP blacklisted".into()] },
        SmtpError::Transient { message: vec!["relay not permitted!".into()] },
        SmtpError::Transient { message: vec!["please try later".into()] },
        SmtpError::Io { failure: IoFailure { raw_os_error: None, text: "incomplete".into() } },
    ];
    for e in known {
        let o = report_for(records(), Ok(MiscDetails::default()), Err(e));
        assert!(has_known_errors(&o));
        assert!(!is_unknown_error(&o));
        assert!(log_unknown_errors(&o, "e".into(), "r").is_none());
    }
}

#[test]
fn other_smtp_errors_are_reported() {
    let unknown = [
        SmtpError::Permanent { message: vec!["550 something odd".into()] },
        SmtpError::Permanent { message: vec!["550 user unknown".into()] },
        SmtpError::Transient { message: vec!["451 busy".into()] },
        SmtpError::Io { failure: IoFailure { raw_os_error: Some(111), text: "refused".into() } },
        SmtpError::Timeout,
        SmtpError::Other { text: "socks".into() },
    ];
    for e in unknown {
        let o = report_for(records(), Ok(MiscDetails::default()), Err(e));
        assert!(is_unknown_error(&o));
        assert!(log_unknown_errors(&o, "e".into(), "r").is_some());
    }
}
