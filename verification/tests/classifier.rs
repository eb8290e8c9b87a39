use reacher_backend::classifier::{
    classify, has_smtp_io_errors, has_smtp_permanent_errors, has_smtp_transient_errors,
    is_known_noise, ErrorClass, ErrorTable, IoFailure, Pattern, SmtpError,
};

fn lines(message: &[&str]) -> Vec<String> {
    message.iter().map(|line| line.to_string()).collect()
}

#[test]
fn permanent_errors_are_known_by_their_first_line() {
    assert!(has_smtp_permanent_errors(&lines(&["5.7.1 IP address blacklisted by recipient"])));
    assert!(has_smtp_permanent_errors(&lines(&[
        "Rejected because 23.129.64.213 is in a black list at b.barracudacentral.org"
    ])));
    assert!(has_smtp_permanent_errors(&lines(&[
        "5.7.1 Recipient not authorized, your IP has been found on a block list"
    ])));
    assert!(has_smtp_permanent_errors(&lines(&[
        "5.7.1 Service unavailable, Client host [23.129.64.184] blocked using Spamhaus."
    ])));
    assert!(has_smtp_permanent_errors(&lines(&[
        "host 23.129.64.216 is listed at combined.mail.abusix.zone"
    ])));
    assert!(has_smtp_permanent_errors(&lines(&["5.7.1 Relaying denied. IP name possibly forged"])));
    assert!(has_smtp_permanent_errors(&lines(&[
        "sorry, mail from your location is administratively denied (#5.7.1)"
    ])));
    assert!(has_smtp_permanent_errors(&lines(&["5.7.606 Access denied, banned sending IP"])));
    assert!(has_smtp_permanent_errors(&lines(&["Connection rejected by policy [7.3] 38206"])));
    assert!(has_smtp_permanent_errors(&lines(&[
        "5.7.1 Client host rejected: cannot find your reverse hostname, [23.129.64.184]"
    ])));
    assert!(has_smtp_permanent_errors(&lines(&["csi.mimecast.org Poor Reputation Sender."])));
    assert!(has_smtp_permanent_errors(&lines(&["JunkMail rejected - (gmail.com)"])));
    assert!(!has_smtp_permanent_errors(&lines(&["5.1.1 The email account does not exist."])));
}

#[test]
fn permanent_errors_fold_the_case_of_the_first_line() {
    assert!(has_smtp_permanent_errors(&lines(&["BLOCKED"])));
    assert!(has_smtp_permanent_errors(&lines(&["Mail Was BlackListed"])));
}

#[test]
fn permanent_errors_look_at_the_second_line_as_it_is() {
    assert!(has_smtp_permanent_errors(&lines(&[
        "Your access to this mail system",
        "has been rejected due to the sending MTA's poor reputation."
    ])));
    assert!(!has_smtp_permanent_errors(&lines(&["Your access to this mail system", "REJECTED"])));
    assert!(!has_smtp_permanent_errors(&lines(&["rejected"])));
    assert!(!has_smtp_permanent_errors(&lines(&["one", "two", "rejected"])));
}

#[test]
fn empty_reply_is_no_known_error() {
    assert!(!is_known_noise(&SmtpError::Permanent { message: Vec::new() }));
    assert!(!is_known_noise(&SmtpError::Transient { message: Vec::new() }));
    assert_eq!(classify(&SmtpError::Permanent { message: Vec::new() }), ErrorClass::Uncategorized);
    assert_eq!(classify(&SmtpError::Transient { message: Vec::new() }), ErrorClass::Uncategorized);
    let table = ErrorTable::standard();
    assert!(!table.hits(ErrorClass::PermanentBlacklist, &Vec::new()));
    assert!(!table.hits(ErrorClass::TransientGreylist, &Vec::new()));
}

#[test]
fn transient_errors_are_known_by_their_first_line() {
    assert!(has_smtp_transient_errors(&lines(&["Blocked - see https://www.spamcop.net/bl.shtml"])));
    assert!(has_smtp_transient_errors(&lines(&["4.7.1 <EMAIL>: Relay access denied"])));
    assert!(has_smtp_transient_errors(&lines(&[
        "4.7.25 Client host rejected: cannot find your hostname"
    ])));
    assert!(has_smtp_transient_errors(&lines(&["relay not permitted!"])));
    assert!(has_smtp_transient_errors(&lines(&[
        "You dont seem to have a reverse dns entry. Come back later."
    ])));
    assert!(has_smtp_transient_errors(&lines(&[
        "23.129.64.216 is not yet authorized to deliver mail from"
    ])));
    assert!(has_smtp_transient_errors(&lines(&["4.3.2 Please try again later"])));
    assert!(has_smtp_transient_errors(&lines(&["Temporary local problem - please try later"])));
    assert!(!has_smtp_transient_errors(&lines(&["4.2.0 mailbox busy"])));
    assert!(!has_smtp_transient_errors(&lines(&["first line", "blocked"])));
}

#[test]
fn io_errors_are_known_by_code_or_text() {
    let reset = IoFailure { raw_os_error: Some(104), text: "Connection reset by peer".into() };
    let incomplete = IoFailure { raw_os_error: None, text: "incomplete".into() };
    let refused = IoFailure { raw_os_error: Some(111), text: "Connection refused".into() };
    let almost = IoFailure { raw_os_error: None, text: "incomplete ".into() };
    assert!(has_smtp_io_errors(&reset));
    assert!(has_smtp_io_errors(&incomplete));
    assert!(!has_smtp_io_errors(&refused));
    assert!(!has_smtp_io_errors(&almost));
}

#[test]
fn classify_gives_each_class() {
    let permanent = |text: &str| SmtpError::Permanent { message: lines(&[text]) };
    let transient = |text: &str| SmtpError::Transient { message: lines(&[text]) };
    assert_eq!(classify(&permanent("listed on zen.spamhaus.org")), ErrorClass::PermanentBlacklist);
    assert_eq!(classify(&permanent("550 5.1.1 User unknown")), ErrorClass::PermanentMailbox);
    assert_eq!(classify(&permanent("550 no such user here")), ErrorClass::PermanentMailbox);
    assert_eq!(classify(&permanent("mailbox unavailable")), ErrorClass::PermanentMailbox);
    assert_eq!(classify(&permanent("550 something else")), ErrorClass::Uncategorized);
    assert_eq!(classify(&transient("relay not permitted!")), ErrorClass::TransientBlacklist);
    assert_eq!(classify(&transient("4.3.2 Please try again later")), ErrorClass::TransientGreylist);
    assert_eq!(classify(&transient("4.2.0 mailbox busy")), ErrorClass::Uncategorized);
    assert_eq!(
        classify(&SmtpError::Io {
            failure: IoFailure { raw_os_error: Some(111), text: "refused".into() }
        }),
        ErrorClass::Io
    );
    assert_eq!(classify(&SmtpError::Timeout), ErrorClass::Io);
    assert_eq!(classify(&SmtpError::Other { text: "socks".into() }), ErrorClass::Uncategorized);
}

#[test]
fn blacklist_phrases_win_over_mailbox_and_greylist_phrases() {
    let both = SmtpError::Permanent { message: lines(&["user unknown; sender blocked"]) };
    assert_eq!(classify(&both), ErrorClass::PermanentBlacklist);
    let both = SmtpError::Transient { message: lines(&["try again later, access denied"]) };
    assert_eq!(classify(&both), ErrorClass::TransientBlacklist);
}

#[test]
fn permanent_phrases_do_not_classify_transient_replies() {
    let reply = SmtpError::Transient { message: lines(&["450 user unknown, spam"]) };
    assert_eq!(classify(&reply), ErrorClass::Uncategorized);
    let reply = SmtpError::Permanent { message: lines(&["550 try again later"]) };
    assert_eq!(classify(&reply), ErrorClass::Uncategorized);
}

#[test]
fn known_noise_is_what_the_tables_and_the_io_rule_know() {
    assert!(is_known_noise(&SmtpError::Permanent { message: lines(&["banned"]) }));
    assert!(is_known_noise(&SmtpError::Transient { message: lines(&["try later"]) }));
    assert!(is_known_noise(&SmtpError::Io {
        failure: IoFailure { raw_os_error: Some(104), text: "reset".into() }
    }));
    assert!(!is_known_noise(&SmtpError::Permanent { message: lines(&["user unknown"]) }));
    assert!(!is_known_noise(&SmtpError::Timeout));
    assert!(!is_known_noise(&SmtpError::Other { text: "blocked".into() }));
}

#[test]
fn a_table_of_ones_own_is_consulted_like_the_built_in_one() {
    let table = ErrorTable::new(vec![
        Pattern { class: ErrorClass::PermanentMailbox, line: 0, fold_case: true, phrase: "gone" },
        Pattern { class: ErrorClass::TransientGreylist, line: 1, fold_case: false, phrase: "Wait" },
    ]);
    assert!(table.hits(ErrorClass::PermanentMailbox, &lines(&["Mailbox GONE"])));
    assert!(!table.hits(ErrorClass::PermanentBlacklist, &lines(&["Mailbox GONE"])));
    assert!(table.hits(ErrorClass::TransientGreylist, &lines(&["x", "Wait a minute"])));
    assert!(!table.hits(ErrorClass::TransientGreylist, &lines(&["x", "wait a minute"])));
    assert_eq!(
        table.classify(&SmtpError::Permanent { message: lines(&["gone"]) }),
        ErrorClass::PermanentMailbox
    );
    assert_eq!(
        table.classify(&SmtpError::Permanent { message: lines(&["blocked"]) }),
        ErrorClass::Uncategorized
    );
}

#[test]
fn lower_casing_is_that_of_the_standard_library() {
    // The Kelvin sign lower-cases to the letter k.
    assert!(has_smtp_permanent_errors(&lines(&["BLOC\u{212A}ED"])));
    let table = ErrorTable::standard();
    let raw = vec!["BLOCKED".chars().collect::<Vec<char>>()];
    assert!(!table.hits_given(ErrorClass::PermanentBlacklist, &raw, &raw));
    let lowered = vec!["blocked".chars().collect::<Vec<char>>()];
    assert!(table.hits_given(ErrorClass::PermanentBlacklist, &raw, &lowered));
}
