//! The error classifier: SMTP errors as plain values, the phrase table, and
//! the class that the table gives an error.
//!
//! The table is data. Each row names a class, the reply line it looks at,
//! whether that line is lower-cased first, and a phrase. Retry policy and
//! telemetry filter both ask the table and hold no phrase of their own.

use crate::text::{
    char_lines, chars_contain, chars_equal, chars_of, contains, lowercase, text_lines,
    to_lowercase,
};
use vstd::prelude::*;

verus! {

/// The classes an SMTP error can fall into.
#[derive(Clone, Copy, Debug, PartialEq, Eq, Structural)]
pub enum ErrorClass {
    /// A permanent rejection that blames the sender's address or reputation.
    PermanentBlacklist,
    /// A permanent rejection that says the mailbox does not exist.
    PermanentMailbox,
    /// A temporary rejection that asks the sender to come back later.
    TransientGreylist,
    /// A temporary rejection that blames the sender's address or reputation.
    TransientBlacklist,
    /// The connection failed or timed out.
    Io,
    /// Anything the table has no phrase for.
    Uncategorized,
}

/// An error of the SMTP probe, as plain values.
#[derive(Debug)]
pub enum SmtpError {
    /// The server answered 5xx; `message` holds the reply's lines.
    Permanent { message: Vec<String> },
    /// The server answered 4xx; `message` holds the reply's lines.
    Transient { message: Vec<String> },
    /// The connection failed.
    Io { failure: IoFailure },
    /// A phase ran into its deadline.
    Timeout,
    /// Any other failure, with its description.
    Other { text: String },
}

/// A failed I/O operation: the operating system's error code, if there was
/// one, and the error's text.
#[derive(Debug)]
pub struct IoFailure {
    pub raw_os_error: Option<i32>,
    pub text: String,
}

/// The model of an `IoFailure`.
pub struct IoFailureView {
    pub raw_os_error: Option<i32>,
    pub text: Seq<char>,
}

impl View for IoFailure {
    type V = IoFailureView;

    open spec fn view(&self) -> IoFailureView {
        IoFailureView { raw_os_error: self.raw_os_error, text: self.text@ }
    }
}

/// The model of an `SmtpError`: reply lines and texts as character sequences.
pub enum SmtpErrorView {
    Permanent { message: Seq<Seq<char>> },
    Transient { message: Seq<Seq<char>> },
    Io { failure: IoFailureView },
    Timeout,
    Other { text: Seq<char> },
}

impl View for SmtpError {
    type V = SmtpErrorView;

    open spec fn view(&self) -> SmtpErrorView {
        match self {
            SmtpError::Permanent { message } => SmtpErrorView::Permanent {
                message: text_lines(message@),
            },
            SmtpError::Transient { message } => SmtpErrorView::Transient {
                message: text_lines(message@),
            },
            SmtpError::Io { failure } => SmtpErrorView::Io { failure: failure@ },
            SmtpError::Timeout => SmtpErrorView::Timeout,
            SmtpError::Other { text } => SmtpErrorView::Other { text: text@ },
        }
    }
}

/// One row of the phrase table.
#[derive(Clone, Copy, Debug)]
pub struct Pattern {
    /// The class that a reply falls into when the row hits.
    pub class: ErrorClass,
    /// The index of the reply line that the row looks at.
    pub line: usize,
    /// Whether the line is lower-cased before the phrase is looked for.
    pub fold_case: bool,
    /// The phrase.
    pub phrase: &'static str,
}

/// A row on the first reply line, lower-cased.
pub open spec fn on_first_line(class: ErrorClass, phrase: &'static str) -> Pattern {
    Pattern { class, line: 0, fold_case: true, phrase }
}

/// The built-in table, in one place.
pub open spec fn standard_rows() -> Seq<Pattern> {
    seq![
        on_first_line(ErrorClass::PermanentBlacklist, "blacklist"),
        on_first_line(ErrorClass::PermanentBlacklist, "black list"),
        on_first_line(ErrorClass::PermanentBlacklist, "block list"),
        on_first_line(ErrorClass::PermanentBlacklist, "spam"),
        on_first_line(ErrorClass::PermanentBlacklist, "abusix"),
        on_first_line(ErrorClass::PermanentBlacklist, "relaying denied"),
        on_first_line(ErrorClass::PermanentBlacklist, "access denied"),
        on_first_line(ErrorClass::PermanentBlacklist, "administratively denied"),
        on_first_line(ErrorClass::PermanentBlacklist, "banned"),
        on_first_line(ErrorClass::PermanentBlacklist, "blocked"),
        on_first_line(ErrorClass::PermanentBlacklist, "connection rejected"),
        on_first_line(ErrorClass::PermanentBlacklist, "cannot find your reverse hostname"),
        on_first_line(ErrorClass::PermanentBlacklist, "poor reputation"),
        on_first_line(ErrorClass::PermanentBlacklist, "junkmail"),
        Pattern {
            class: ErrorClass::PermanentBlacklist,
            line: 1,
            fold_case: false,
            phrase: "rejected",
        },
        on_first_line(ErrorClass::PermanentMailbox, "user unknown"),
        on_first_line(ErrorClass::PermanentMailbox, "no such user"),
        on_first_line(ErrorClass::PermanentMailbox, "does not exist"),
        on_first_line(ErrorClass::PermanentMailbox, "unknown recipient"),
        on_first_line(ErrorClass::PermanentMailbox, "not exist"),
        on_first_line(ErrorClass::PermanentMailbox, "invalid recipient"),
        on_first_line(ErrorClass::PermanentMailbox, "mailbox unavailable"),
        on_first_line(ErrorClass::TransientBlacklist, "blocked"),
        on_first_line(ErrorClass::TransientBlacklist, "access denied"),
        on_first_line(ErrorClass::TransientBlacklist, "host rejected"),
        on_first_line(ErrorClass::TransientBlacklist, "relay not permitted"),
        on_first_line(ErrorClass::TransientBlacklist, "not yet authorized"),
        on_first_line(ErrorClass::TransientGreylist, "reverse dns entry"),
        on_first_line(ErrorClass::TransientGreylist, "try again"),
        on_first_line(ErrorClass::TransientGreylist, "try later"),
    ]
}

/// The lower-case forms of the lines of a reply.
pub open spec fn lowered_lines(lines: Seq<Seq<char>>) -> Seq<Seq<char>> {
    Seq::new(lines.len(), |i: int| lowercase(lines[i]))
}

/// A row hits a reply when the reply has the line the row looks at and the
/// row's phrase occurs in it: in `lowered` for a row that folds case, in
/// `lines` for one that does not.
pub open spec fn row_hits(row: Pattern, lines: Seq<Seq<char>>, lowered: Seq<Seq<char>>) -> bool {
    &&& row.line < lines.len()
    &&& row.line < lowered.len()
    &&& contains(
        if row.fold_case {
            lowered[row.line as int]
        } else {
            lines[row.line as int]
        },
        row.phrase@,
    )
}

/// Some row of `class` hits the reply, given the reply's lines and their
/// lower-case forms.
pub open spec fn class_hits_given(
    rows: Seq<Pattern>,
    class: ErrorClass,
    lines: Seq<Seq<char>>,
    lowered: Seq<Seq<char>>,
) -> bool {
    exists|i: int| 0 <= i < rows.len() && (#[trigger] rows[i]).class == class && row_hits(
        rows[i],
        lines,
        lowered,
    )
}

/// Some row of `class` hits the reply.
pub open spec fn class_hits(rows: Seq<Pattern>, class: ErrorClass, lines: Seq<Seq<char>>) -> bool {
    class_hits_given(rows, class, lines, lowered_lines(lines))
}

/// The class of a 5xx reply: blacklist phrases are looked for before mailbox
/// phrases.
pub open spec fn permanent_class(rows: Seq<Pattern>, lines: Seq<Seq<char>>) -> ErrorClass {
    if class_hits(rows, ErrorClass::PermanentBlacklist, lines) {
        ErrorClass::PermanentBlacklist
    } else if class_hits(rows, ErrorClass::PermanentMailbox, lines) {
        ErrorClass::PermanentMailbox
    } else {
        ErrorClass::Uncategorized
    }
}

/// The class of a 4xx reply: blacklist phrases are looked for before greylist
/// phrases.
pub open spec fn transient_class(rows: Seq<Pattern>, lines: Seq<Seq<char>>) -> ErrorClass {
    if class_hits(rows, ErrorClass::TransientBlacklist, lines) {
        ErrorClass::TransientBlacklist
    } else if class_hits(rows, ErrorClass::TransientGreylist, lines) {
        ErrorClass::TransientGreylist
    } else {
        ErrorClass::Uncategorized
    }
}

/// The class that a table gives an error.
pub open spec fn class_by(rows: Seq<Pattern>, error: SmtpErrorView) -> ErrorClass {
    match error {
        SmtpErrorView::Permanent { message } => permanent_class(rows, message),
        SmtpErrorView::Transient { message } => transient_class(rows, message),
        SmtpErrorView::Io { .. } => ErrorClass::Io,
        SmtpErrorView::Timeout => ErrorClass::Io,
        SmtpErrorView::Other { .. } => ErrorClass::Uncategorized,
    }
}

/// The class that the built-in table gives an error.
pub open spec fn class_of(error: SmtpErrorView) -> ErrorClass {
    class_by(standard_rows(), error)
}

/// The I/O failures that are known noise: a connection reset by the peer
/// (code 104) and a read that ended early (text `incomplete`).
pub open spec fn known_io_failure(failure: IoFailureView) -> bool {
    failure.raw_os_error == Some(104i32) || failure.text == "incomplete"@
}

/// Does a class blame the transport that was used?
pub open spec fn blames_transport(class: ErrorClass) -> bool {
    class == ErrorClass::PermanentBlacklist || class == ErrorClass::TransientBlacklist
}

/// The errors that are known noise and are kept from telemetry: blacklist
/// and greylist replies, and the known I/O failures.
pub open spec fn known_noise(error: SmtpErrorView) -> bool {
    match error {
        SmtpErrorView::Permanent { message } => class_hits(
            standard_rows(),
            ErrorClass::PermanentBlacklist,
            message,
        ),
        SmtpErrorView::Transient { message } => class_hits(
            standard_rows(),
            ErrorClass::TransientBlacklist,
            message,
        ) || class_hits(standard_rows(), ErrorClass::TransientGreylist, message),
        SmtpErrorView::Io { failure } => known_io_failure(failure),
        SmtpErrorView::Timeout => false,
        SmtpErrorView::Other { .. } => false,
    }
}

/// The phrase table.
pub struct ErrorTable {
    rows: Vec<Pattern>,
}

impl View for ErrorTable {
    type V = Seq<Pattern>;

    closed spec fn view(&self) -> Seq<Pattern> {
        self.rows@
    }
}

impl Pattern {
    /// A row on the first reply line, lower-cased.
    pub fn first_line(class: ErrorClass, phrase: &'static str) -> (row: Pattern)
        ensures
            row == on_first_line(class, phrase),
    {
        Pattern { class, line: 0, fold_case: true, phrase }
    }
}

/// The characters of each line of a reply.
pub fn lines_of(message: &Vec<String>) -> (lines: Vec<Vec<char>>)
    ensures
        char_lines(lines@) == text_lines(message@),
{
    let mut lines: Vec<Vec<char>> = Vec::new();
    let mut i: usize = 0;
    while i < message.len()
        invariant
            i <= message.len(),
            lines.len() == i,
            forall|j: int| 0 <= j < i ==> (#[trigger] lines@[j])@ == message@[j]@,
        decreases message.len() - i,
    {
        let line = chars_of(message[i].as_str());
        lines.push(line);
        i += 1;
    }
    assert(char_lines(lines@) =~= text_lines(message@));
    lines
}

/// The characters of the lower-case form of each line of a reply.
pub fn lowered_lines_of(message: &Vec<String>) -> (lowered: Vec<Vec<char>>)
    ensures
        char_lines(lowered@) == lowered_lines(text_lines(message@)),
{
    let mut lowered: Vec<Vec<char>> = Vec::new();
    let mut i: usize = 0;
    while i < message.len()
        invariant
            i <= message.len(),
            lowered.len() == i,
            forall|j: int| 0 <= j < i ==> (#[trigger] lowered@[j])@ == lowercase(message@[j]@),
        decreases message.len() - i,
    {
        let low = to_lowercase(message[i].as_str());
        let line = chars_of(low.as_str());
        lowered.push(line);
        i += 1;
    }
    assert(char_lines(lowered@) =~= lowered_lines(text_lines(message@)));
    lowered
}

impl ErrorTable {
    /// A table with the given rows.
    pub fn new(rows: Vec<Pattern>) -> (table: ErrorTable)
        ensures
            table@ == rows@,
    {
        ErrorTable { rows }
    }

    /// The built-in table.
    pub fn standard() -> (table: ErrorTable)
        ensures
            table@ == standard_rows(),
    {
        let mut rows: Vec<Pattern> = Vec::new();
        rows.push(Pattern::first_line(ErrorClass::PermanentBlacklist, "blacklist"));
        rows.push(Pattern::first_line(ErrorClass::PermanentBlacklist, "black list"));
        rows.push(Pattern::first_line(ErrorClass::PermanentBlacklist, "block list"));
        rows.push(Pattern::first_line(ErrorClass::PermanentBlacklist, "spam"));
        rows.push(Pattern::first_line(ErrorClass::PermanentBlacklist, "abusix"));
        rows.push(Pattern::first_line(ErrorClass::PermanentBlacklist, "relaying denied"));
        rows.push(Pattern::first_line(ErrorClass::PermanentBlacklist, "access denied"));
        rows.push(Pattern::first_line(ErrorClass::PermanentBlacklist, "administratively denied"));
        rows.push(Pattern::first_line(ErrorClass::PermanentBlacklist, "banned"));
        rows.push(Pattern::first_line(ErrorClass::PermanentBlacklist, "blocked"));
        rows.push(Pattern::first_line(ErrorClass::PermanentBlacklist, "connection rejected"));
        rows.push(
            Pattern::first_line(
                ErrorClass::PermanentBlacklist,
                "cannot find your reverse hostname",
            ),
        );
        rows.push(Pattern::first_line(ErrorClass::PermanentBlacklist, "poor reputation"));
        rows.push(Pattern::first_line(ErrorClass::PermanentBlacklist, "junkmail"));
        rows.push(
            Pattern {
                class: ErrorClass::PermanentBlacklist,
                line: 1,
                fold_case: false,
                phrase: "rejected",
            },
        );
        rows.push(Pattern::first_line(ErrorClass::PermanentMailbox, "user unknown"));
        rows.push(Pattern::first_line(ErrorClass::PermanentMailbox, "no such user"));
        rows.push(Pattern::first_line(ErrorClass::PermanentMailbox, "does not exist"));
        rows.push(Pattern::first_line(ErrorClass::PermanentMailbox, "unknown recipient"));
        rows.push(Pattern::first_line(ErrorClass::PermanentMailbox, "not exist"));
        rows.push(Pattern::first_line(ErrorClass::PermanentMailbox, "invalid recipient"));
        rows.push(Pattern::first_line(ErrorClass::PermanentMailbox, "mailbox unavailable"));
        rows.push(Pattern::first_line(ErrorClass::TransientBlacklist, "blocked"));
        rows.push(Pattern::first_line(ErrorClass::TransientBlacklist, "access denied"));
        rows.push(Pattern::first_line(ErrorClass::TransientBlacklist, "host rejected"));
        rows.push(Pattern::first_line(ErrorClass::TransientBlacklist, "relay not permitted"));
        rows.push(Pattern::first_line(ErrorClass::TransientBlacklist, "not yet authorized"));
        rows.push(Pattern::first_line(ErrorClass::TransientGreylist, "reverse dns entry"));
        rows.push(Pattern::first_line(ErrorClass::TransientGreylist, "try again"));
        rows.push(Pattern::first_line(ErrorClass::TransientGreylist, "try later"));
        assert(rows@ =~= standard_rows());
        ErrorTable { rows }
    }

    /// Does some row of `class` hit the reply whose lines are `lines` and
    /// whose lower-cased lines are `lowered`?
    pub fn hits_given(
        &self,
        class: ErrorClass,
        lines: &Vec<Vec<char>>,
        lowered: &Vec<Vec<char>>,
    ) -> (hit: bool)
        ensures
            hit == class_hits_given(self@, class, char_lines(lines@), char_lines(lowered@)),
    {
        let mut i: usize = 0;
        while i < self.rows.len()
            invariant
                i <= self.rows.len(),
                forall|j: int|
                    0 <= j < i ==> !((#[trigger] self.rows@[j]).class == class && row_hits(
                        self.rows@[j],
                        char_lines(lines@),
                        char_lines(lowered@),
                    )),
            decreases self.rows.len() - i,
        {
            let row = self.rows[i];
            if row.class == class && row.line < lines.len() && row.line < lowered.len() {
                let phrase = chars_of(row.phrase);
                let hay = if row.fold_case {
                    &lowered[row.line]
                } else {
                    &lines[row.line]
                };
                if chars_contain(hay, &phrase) {
                    return true;
                }
            }
            i += 1;
        }
        false
    }

    /// Does some row of `class` hit the reply?
    pub fn hits(&self, class: ErrorClass, message: &Vec<String>) -> (hit: bool)
        ensures
            hit == class_hits(self@, class, text_lines(message@)),
    {
        let lines = lines_of(message);
        let lowered = lowered_lines_of(message);
        self.hits_given(class, &lines, &lowered)
    }

    /// The class that this table gives an error.
    pub fn classify(&self, error: &SmtpError) -> (class: ErrorClass)
        ensures
            class == class_by(self@, error@),
    {
        match error {
            SmtpError::Permanent { message } => {
                if self.hits(ErrorClass::PermanentBlacklist, message) {
                    ErrorClass::PermanentBlacklist
                } else if self.hits(ErrorClass::PermanentMailbox, message) {
                    ErrorClass::PermanentMailbox
                } else {
                    ErrorClass::Uncategorized
                }
            },
            SmtpError::Transient { message } => {
                if self.hits(ErrorClass::TransientBlacklist, message) {
                    ErrorClass::TransientBlacklist
                } else if self.hits(ErrorClass::TransientGreylist, message) {
                    ErrorClass::TransientGreylist
                } else {
                    ErrorClass::Uncategorized
                }
            },
            SmtpError::Io { .. } => ErrorClass::Io,
            SmtpError::Timeout => ErrorClass::Io,
            SmtpError::Other { .. } => ErrorClass::Uncategorized,
        }
    }
}

/// The class that the built-in table gives an error.
pub fn classify(error: &SmtpError) -> (class: ErrorClass)
    ensures
        class == class_of(error@),
{
    ErrorTable::standard().classify(error)
}

/// Is this I/O failure known noise?
pub fn has_smtp_io_errors(error: &IoFailure) -> (known: bool)
    ensures
        known == known_io_failure(error@),
{
    let reset = match error.raw_os_error {
        Some(code) => code == 104,
        None => false,
    };
    if reset {
        return true;
    }
    let text = chars_of(error.text.as_str());
    let incomplete = chars_of("incomplete");
    chars_equal(&text, &incomplete)
}

/// Is this 5xx reply known noise: does it blame the sender's address or
/// reputation? The reply has a first line, as every reply of a server has;
/// `is_known_noise` takes a reply without one.
pub fn has_smtp_permanent_errors(message: &Vec<String>) -> (known: bool)
    requires
        message.len() >= 1,
    ensures
        known == class_hits(standard_rows(), ErrorClass::PermanentBlacklist, text_lines(message@)),
{
    ErrorTable::standard().hits(ErrorClass::PermanentBlacklist, message)
}

/// Is this 4xx reply known noise: a blacklist or a greylist reply? The
/// reply has a first line, as every reply of a server has; `is_known_noise`
/// takes a reply without one.
pub fn has_smtp_transient_errors(message: &Vec<String>) -> (known: bool)
    requires
        message.len() >= 1,
    ensures
        known == (class_hits(
            standard_rows(),
            ErrorClass::TransientBlacklist,
            text_lines(message@),
        ) || class_hits(standard_rows(), ErrorClass::TransientGreylist, text_lines(message@))),
{
    let table = ErrorTable::standard();
    let lines = lines_of(message);
    let lowered = lowered_lines_of(message);
    let blacklist = table.hits_given(ErrorClass::TransientBlacklist, &lines, &lowered);
    let greylist = table.hits_given(ErrorClass::TransientGreylist, &lines, &lowered);
    blacklist || greylist
}

/// Is this error known noise, to be kept from telemetry? A reply without a
/// line holds no phrase and is not.
pub fn is_known_noise(error: &SmtpError) -> (known: bool)
    ensures
        known == known_noise(error@),
{
    match error {
        SmtpError::Permanent { message } => {
            if message.len() == 0 {
                false
            } else {
                has_smtp_permanent_errors(message)
            }
        },
        SmtpError::Transient { message } => {
            if message.len() == 0 {
                false
            } else {
                has_smtp_transient_errors(message)
            }
        },
        SmtpError::Io { failure } => has_smtp_io_errors(failure),
        SmtpError::Timeout => false,
        SmtpError::Other { .. } => false,
    }
}

} // verus!
