use reacher_backend::classifier::{IoFailure, SmtpError};
use reacher_backend::output::{
    derive_reachable, CheckEmailOutput, MiscDetails, MxDetails, ProbeError, Reachable, SmtpDetails,
    SyntaxDetails,
};

fn valid_syntax() -> SyntaxDetails {
    SyntaxDetails::valid("foo@bar.baz".into(), "foo".into(), "bar.baz".into())
}

fn mx(records: &[&str]) -> Result<MxDetails, ProbeError> {
    Ok(MxDetails::new(records.iter().map(|r| r.to_string()).collect()))
}

fn misc(is_role_account: bool) -> Result<MiscDetails, ProbeError> {
    Ok(MiscDetails { is_disposable: false, is_role_account })
}

fn deliverable() -> SmtpDetails {
    SmtpDetails {
        can_connect_smtp: true,
        has_full_inbox: false,
        is_catch_all: false,
        is_deliverable: true,
        is_disabled: false,
    }
}

fn verdict(
    mx: Result<MxDetails, ProbeError>,
    misc: Result<MiscDetails, ProbeError>,
    smtp: Result<SmtpDetails, SmtpError>,
) -> Reachable {
    derive_reachable(&valid_syntax(), &mx, &misc, &smtp)
}

fn permanent(line: &str) -> SmtpError {
    SmtpError::Permanent { message: vec![line.to_string()] }
}

#[test]
fn only_unknown_is_inconclusive() {
    assert!(Reachable::Safe.is_conclusive());
    assert!(Reachable::Risky.is_conclusive());
    assert!(Reachable::Invalid.is_conclusive());
    assert!(!Reachable::Unknown.is_conclusive());
}

#[test]
fn invalid_syntax_is_invalid_whatever_the_probes_say() {
    let r = derive_reachable(&SyntaxDetails::invalid(), &mx(&["mx.bar.baz"]), &misc(false), &Ok(deliverable()));
    assert_eq!(r, Reachable::Invalid);
}

#[test]
fn no_mx_record_is_invalid() {
    assert_eq!(verdict(mx(&[]), misc(false), Ok(deliverable())), Reachable::Invalid);
}

#[test]
fn deliverable_without_flags_is_safe() {
    assert_eq!(verdict(mx(&["mx.bar.baz"]), misc(false), Ok(deliverable())), Reachable::Safe);
}

#[test]
fn disposable_domain_does_not_change_the_verdict() {
    let disposable = Ok(MiscDetails { is_disposable: true, is_role_account: false });
    assert_eq!(verdict(mx(&["mx.bar.baz"]), disposable, Ok(deliverable())), Reachable::Safe);
}

#[test]
fn catch_all_full_inbox_disabled_and_role_account_are_risky() {
    let records = || mx(&["mx.bar.baz"]);
    let catch_all = SmtpDetails { is_catch_all: true, ..deliverable() };
    assert_eq!(verdict(records(), misc(false), Ok(catch_all)), Reachable::Risky);
    let full = SmtpDetails { has_full_inbox: true, is_deliverable: false, ..deliverable() };
    assert_eq!(verdict(records(), misc(false), Ok(full)), Reachable::Risky);
    let disabled = SmtpDetails { is_disabled: true, is_deliverable: false, ..deliverable() };
    assert_eq!(verdict(records(), misc(false), Ok(disabled)), Reachable::Risky);
    assert_eq!(verdict(records(), misc(true), Ok(deliverable())), Reachable::Risky);
}

#[test]
fn refused_recipient_is_invalid_unless_the_address_is_a_role_account() {
    let refused = SmtpDetails { is_deliverable: false, ..deliverable() };
    assert_eq!(verdict(mx(&["mx.bar.baz"]), misc(false), Ok(refused)), Reachable::Invalid);
    assert_eq!(verdict(mx(&["mx.bar.baz"]), misc(true), Ok(refused)), Reachable::Risky);
    let refused_catch_all = SmtpDetails { is_catch_all: true, ..refused };
    assert_eq!(verdict(mx(&["mx.bar.baz"]), misc(false), Ok(refused_catch_all)), Reachable::Invalid);
}

#[test]
fn errors_leave_the_verdict_unknown() {
    let mx_err = Err(ProbeError { text: "dns timeout".into() });
    let misc_err = Err(ProbeError { text: "lists".into() });
    assert_eq!(verdict(mx_err, misc(false), Ok(deliverable())), Reachable::Unknown);
    assert_eq!(verdict(mx(&["mx"]), misc_err, Ok(deliverable())), Reachable::Unknown);
    assert_eq!(verdict(mx(&["mx"]), misc(false), Err(SmtpError::Timeout)), Reachable::Unknown);
    let io = SmtpError::Io { failure: IoFailure { raw_os_error: Some(104), text: "reset".into() } };
    assert_eq!(verdict(mx(&["mx"]), misc(false), Err(io)), Reachable::Unknown);
    assert_eq!(verdict(mx(&["mx"]), misc(false), Err(permanent("blocked"))), Reachable::Unknown);
    assert_eq!(verdict(mx(&["mx"]), misc(false), Err(permanent("odd"))), Reachable::Unknown);
    let greylisted = SmtpError::Transient { message: vec!["try again later".into()] };
    assert_eq!(verdict(mx(&["mx"]), misc(false), Err(greylisted)), Reachable::Unknown);
}

#[test]
fn permanent_rejection_of_the_mailbox_is_invalid() {
    assert_eq!(
        verdict(mx(&["mx"]), misc(false), Err(permanent("550 5.1.1 user unknown"))),
        Reachable::Invalid
    );
}

#[test]
fn mx_error_is_looked_at_before_missing_records_and_smtp() {
    let err = Err(ProbeError { text: "dns".into() });
    assert_eq!(verdict(err, misc(false), Err(permanent("user unknown"))), Reachable::Unknown);
    assert_eq!(verdict(mx(&[]), Err(ProbeError { text: "x".into() }), Err(SmtpError::Timeout)), Reachable::Invalid);
}

#[test]
fn same_sub_results_same_verdict() {
    for _ in 0..3 {
        assert_eq!(verdict(mx(&["a", "b"]), misc(true), Ok(deliverable())), Reachable::Risky);
    }
}

#[test]
fn output_for_unparsed_address_has_no_probe_results() {
    let o = CheckEmailOutput::invalid_syntax("foo@bar".into());
    assert_eq!(o.input(), "foo@bar");
    assert_eq!(o.is_reachable(), Reachable::Invalid);
    assert!(!o.syntax().is_valid_syntax());
    assert!(o.syntax().address().is_none());
    assert_eq!(o.syntax().username(), "");
    assert_eq!(o.syntax().domain(), "");
    let mx = o.mx().as_ref().unwrap();
    assert!(mx.records.is_empty());
    assert!(!mx.accepts_mail());
    assert_eq!(o.misc().as_ref().unwrap(), &MiscDetails { is_disposable: false, is_role_account: false });
    assert_eq!(o.smtp().as_ref().unwrap(), &SmtpDetails::default());
    assert!(!o.smtp().as_ref().unwrap().can_connect_smtp);
}

#[test]
fn new_output_with_invalid_syntax_drops_what_the_probes_said() {
    let o = CheckEmailOutput::new(
        "foo".into(),
        SyntaxDetails::invalid(),
        mx(&["mx.example.org"]),
        Err(ProbeError { text: "x".into() }),
        Ok(deliverable()),
    );
    assert_eq!(o.is_reachable(), Reachable::Invalid);
    assert!(o.mx().as_ref().unwrap().records.is_empty());
    assert!(o.misc().is_ok());
    assert!(!o.smtp().as_ref().unwrap().can_connect_smtp);
}

#[test]
fn new_output_keeps_the_sub_results_and_derives_the_verdict() {
    let o = CheckEmailOutput::new(
        "foo@bar.baz".into(),
        valid_syntax(),
        mx(&["mx1.bar.baz", "mx2.bar.baz"]),
        misc(false),
        Ok(deliverable()),
    );
    assert_eq!(o.is_reachable(), Reachable::Safe);
    assert_eq!(o.input(), "foo@bar.baz");
    assert_eq!(o.syntax().address().unwrap(), "foo@bar.baz");
    assert_eq!(o.syntax().username(), "foo");
    assert_eq!(o.syntax().domain(), "bar.baz");
    assert_eq!(o.mx().as_ref().unwrap().records, vec!["mx1.bar.baz", "mx2.bar.baz"]);
    assert!(o.mx().as_ref().unwrap().accepts_mail());
    assert_eq!(o.smtp().as_ref().unwrap(), &deliverable());
}

#[test]
fn output_keeps_a_failed_probe_as_an_error() {
    let o = CheckEmailOutput::new(
        "foo@bar.baz".into(),
        valid_syntax(),
        mx(&["mx1.bar.baz"]),
        misc(false),
        Err(SmtpError::Timeout),
    );
    assert_eq!(o.is_reachable(), Reachable::Unknown);
    assert!(matches!(o.smtp(), Err(SmtpError::Timeout)));
    assert!(o.mx().is_ok());
}

#[test]
fn syntax_copy_is_equal_field_for_field() {
    let s = valid_syntax();
    let c = s.duplicate();
    assert_eq!(c.address(), s.address());
    assert_eq!(c.username(), s.username());
    assert_eq!(c.domain(), s.domain());
    assert_eq!(c.is_valid_syntax(), s.is_valid_syntax());
}

#[test]
fn defaults_are_not_attempted_values() {
    assert_eq!(MiscDetails::default(), MiscDetails { is_disposable: false, is_role_account: false });
    assert!(!SmtpDetails::default().is_deliverable);
    assert!(!MxDetails::none().accepts_mail());
}
