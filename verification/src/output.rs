//! The verification output: the four sub-results of a check and the verdict
//! that is derived from them.

use crate::classifier::{class_of, classify, ErrorClass, SmtpError, SmtpErrorView};
use crate::text::text_lines;
use vstd::prelude::*;

verus! {

/// The verdict on whether an address would accept mail.
#[derive(Clone, Copy, Debug, PartialEq, Eq, Structural)]
pub enum Reachable {
    /// The address exists and mail to it is expected to arrive.
    Safe,
    /// The address may exist, but mail to it may bounce or go unread.
    Risky,
    /// Mail to the address will not arrive.
    Invalid,
    /// The check could not tell.
    Unknown,
}

impl Reachable {
    /// A verdict is conclusive when it is `Safe`, `Risky` or `Invalid`.
    pub open spec fn conclusive(self) -> bool {
        self != Reachable::Unknown
    }

    /// Is the verdict conclusive?
    pub fn is_conclusive(self) -> (b: bool)
        ensures
            b == self.conclusive(),
    {
        self != Reachable::Unknown
    }
}

/// The model of the syntax sub-result.
pub struct SyntaxView {
    pub address: Option<Seq<char>>,
    pub domain: Seq<char>,
    pub is_valid_syntax: bool,
    pub username: Seq<char>,
}

/// The syntax sub-result of an address that did not parse.
pub open spec fn invalid_syntax() -> SyntaxView {
    SyntaxView {
        address: None,
        domain: Seq::empty(),
        is_valid_syntax: false,
        username: Seq::empty(),
    }
}

/// The syntax sub-result: the address as it was parsed, the part before the
/// `@` and the part after it. Of an address that did not parse it holds no
/// address and two empty parts.
#[derive(Debug)]
pub struct SyntaxDetails {
    address: Option<String>,
    domain: String,
    is_valid_syntax: bool,
    username: String,
}

impl View for SyntaxDetails {
    type V = SyntaxView;

    closed spec fn view(&self) -> SyntaxView {
        SyntaxView {
            address: match self.address {
                Some(a) => Some(a@),
                None => None,
            },
            domain: self.domain@,
            is_valid_syntax: self.is_valid_syntax,
            username: self.username@,
        }
    }
}

/// What holds of every syntax sub-result: it is valid exactly when it has an
/// address, and an invalid one has empty parts.
pub open spec fn syntax_consistent(s: SyntaxView) -> bool {
    &&& s.is_valid_syntax <==> s.address is Some
    &&& !s.is_valid_syntax ==> s == invalid_syntax()
}

/// What holds of the syntax sub-result of `email`, whatever the parser said:
/// it is consistent, and if it is valid then its address is `email`, which
/// is the username, one `@` and the domain, with no further `@` in either
/// part and a `.` in the domain.
pub open spec fn parsed_from(email: Seq<char>, s: SyntaxView) -> bool {
    &&& syntax_consistent(s)
    &&& s.is_valid_syntax ==> {
        &&& s.address == Some(email)
        &&& email == s.username + seq!['@'] + s.domain
        &&& !s.username.contains('@')
        &&& !s.domain.contains('@')
        &&& s.domain.contains('.')
    }
}

/// `check_if_email_exists::syntax::check_syntax`, whose four fields of the
/// data model are taken over as they are. The contract claims what the
/// source shows of every result. An address that is refused comes back
/// without address and with empty parts. One that is accepted has passed
/// `fast_chemail::parse_email` (through `mailchecker::is_valid`), which asks
/// for exactly one `@` and for a period in the part after it; the address
/// that comes back is the text that went in, and username and domain are its
/// two parts around the `@`.
#[verifier::external_body]
pub(crate) fn check_syntax(to_email: &str) -> (syntax: SyntaxDetails)
    ensures
        parsed_from(to_email@, syntax@),
{
    let details = check_if_email_exists::syntax::check_syntax(to_email);
    SyntaxDetails {
        address: details.address.map(|address| address.to_string()),
        domain: details.domain,
        is_valid_syntax: details.is_valid_syntax,
        username: details.username,
    }
}

impl SyntaxDetails {
    #[verifier::type_invariant]
    spec fn inv(self) -> bool {
        syntax_consistent(self@)
    }

    /// The sub-result of an address that parsed.
    pub fn valid(address: String, username: String, domain: String) -> (s: SyntaxDetails)
        ensures
            s@ == (SyntaxView {
                address: Some(address@),
                domain: domain@,
                is_valid_syntax: true,
                username: username@,
            }),
    {
        SyntaxDetails { address: Some(address), domain, is_valid_syntax: true, username }
    }

    /// The sub-result of an address that did not parse.
    pub fn invalid() -> (s: SyntaxDetails)
        ensures
            s@ == invalid_syntax(),
    {
        let s = SyntaxDetails {
            address: None,
            domain: String::new(),
            is_valid_syntax: false,
            username: String::new(),
        };
        assert(s@.domain =~= Seq::<char>::empty());
        assert(s@.username =~= Seq::<char>::empty());
        s
    }

    /// The address as it was parsed, if it parsed.
    pub fn address(&self) -> (a: Option<&String>)
        ensures
            syntax_consistent(self@),
            match a {
                Some(text) => self@.address == Some(text@),
                None => self@.address is None,
            },
    {
        proof {
            use_type_invariant(self);
        }
        match &self.address {
            Some(a) => Some(a),
            None => None,
        }
    }

    /// The part after the `@`; empty if the address did not parse.
    pub fn domain(&self) -> (d: &String)
        ensures
            syntax_consistent(self@),
            d@ == self@.domain,
    {
        proof {
            use_type_invariant(self);
        }
        &self.domain
    }

    /// The part before the `@`; empty if the address did not parse.
    pub fn username(&self) -> (u: &String)
        ensures
            syntax_consistent(self@),
            u@ == self@.username,
    {
        proof {
            use_type_invariant(self);
        }
        &self.username
    }

    /// Did the address parse?
    pub fn is_valid_syntax(&self) -> (b: bool)
        ensures
            syntax_consistent(self@),
            b == self@.is_valid_syntax,
    {
        proof {
            use_type_invariant(self);
        }
        self.is_valid_syntax
    }

    /// A copy of this sub-result.
    pub fn duplicate(&self) -> (s: SyntaxDetails)
        ensures
            s@ == self@,
    {
        proof {
            use_type_invariant(self);
        }
        match &self.address {
            Some(a) => SyntaxDetails {
                address: Some(a.clone()),
                domain: self.domain.clone(),
                is_valid_syntax: self.is_valid_syntax,
                username: self.username.clone(),
            },
            None => SyntaxDetails {
                address: None,
                domain: self.domain.clone(),
                is_valid_syntax: self.is_valid_syntax,
                username: self.username.clone(),
            },
        }
    }
}

/// The model of the MX sub-result.
pub struct MxView {
    pub records: Seq<Seq<char>>,
}

impl MxView {
    /// A domain accepts mail when it has at least one exchanger.
    pub open spec fn accepts_mail(self) -> bool {
        self.records.len() > 0
    }
}

/// The MX sub-result: the exchangers of the domain, lowest preference first.
#[derive(Debug)]
pub struct MxDetails {
    pub records: Vec<String>,
}

impl View for MxDetails {
    type V = MxView;

    open spec fn view(&self) -> MxView {
        MxView { records: text_lines(self.records@) }
    }
}

impl MxDetails {
    /// The sub-result of a domain with the given exchangers.
    pub fn new(records: Vec<String>) -> (mx: MxDetails)
        ensures
            mx@.records == text_lines(records@),
    {
        MxDetails { records }
    }

    /// The sub-result of a domain without exchangers, and of a lookup that
    /// was not attempted.
    pub fn none() -> (mx: MxDetails)
        ensures
            mx@.records == Seq::<Seq<char>>::empty(),
    {
        let mx = MxDetails { records: Vec::new() };
        assert(mx@.records =~= Seq::<Seq<char>>::empty());
        mx
    }

    /// Does the domain accept mail?
    pub fn accepts_mail(&self) -> (b: bool)
        ensures
            b == self@.accepts_mail(),
    {
        self.records.len() > 0
    }
}

/// The misc sub-result.
#[derive(Clone, Copy, Debug, PartialEq, Eq, Structural)]
pub struct MiscDetails {
    /// The domain is a known provider of disposable addresses.
    pub is_disposable: bool,
    /// The part before the `@` is a known role, such as `info` or `admin`.
    pub is_role_account: bool,
}

/// The misc sub-result of a check that was not attempted.
pub open spec fn misc_not_attempted() -> MiscDetails {
    MiscDetails { is_disposable: false, is_role_account: false }
}

impl Default for MiscDetails {
    fn default() -> (misc: MiscDetails)
        ensures
            misc == misc_not_attempted(),
    {
        MiscDetails { is_disposable: false, is_role_account: false }
    }
}

/// The SMTP sub-result.
#[derive(Clone, Copy, Debug, PartialEq, Eq, Structural)]
pub struct SmtpDetails {
    /// The server's banner was read.
    pub can_connect_smtp: bool,
    /// The server said the mailbox is full.
    pub has_full_inbox: bool,
    /// The server accepts any recipient at the domain.
    pub is_catch_all: bool,
    /// The server accepted the recipient.
    pub is_deliverable: bool,
    /// The server said the mailbox is disabled.
    pub is_disabled: bool,
}

/// The SMTP sub-result of a probe that was not attempted.
pub open spec fn smtp_not_attempted() -> SmtpDetails {
    SmtpDetails {
        can_connect_smtp: false,
        has_full_inbox: false,
        is_catch_all: false,
        is_deliverable: false,
        is_disabled: false,
    }
}

impl Default for SmtpDetails {
    fn default() -> (smtp: SmtpDetails)
        ensures
            smtp == smtp_not_attempted(),
    {
        SmtpDetails {
            can_connect_smtp: false,
            has_full_inbox: false,
            is_catch_all: false,
            is_deliverable: false,
            is_disabled: false,
        }
    }
}

/// An error of the MX lookup or of the misc check, with its description.
#[derive(Debug)]
pub struct ProbeError {
    pub text: String,
}

impl View for ProbeError {
    type V = Seq<char>;

    open spec fn view(&self) -> Seq<char> {
        self.text@
    }
}

/// The model of an MX sub-result or its error.
pub open spec fn mx_view(mx: Result<MxDetails, ProbeError>) -> Result<MxView, Seq<char>> {
    match mx {
        Ok(m) => Ok(m@),
        Err(e) => Err(e@),
    }
}

/// The model of a misc sub-result or its error.
pub open spec fn misc_view(misc: Result<MiscDetails, ProbeError>) -> Result<
    MiscDetails,
    Seq<char>,
> {
    match misc {
        Ok(m) => Ok(m),
        Err(e) => Err(e@),
    }
}

/// The model of an SMTP sub-result or its error.
pub open spec fn smtp_view(smtp: Result<SmtpDetails, SmtpError>) -> Result<
    SmtpDetails,
    SmtpErrorView,
> {
    match smtp {
        Ok(s) => Ok(s),
        Err(e) => Err(e@),
    }
}

/// The verdict on a probe that answered. A full mailbox, a disabled
/// mailbox and a role account are risky whether or not the server accepted
/// the recipient; otherwise a recipient that was refused is invalid;
/// otherwise a catch-all server, which accepts every recipient, is risky;
/// and what is left is safe. A disposable domain does not change the
/// verdict.
pub open spec fn verdict_of_reply(misc: MiscDetails, smtp: SmtpDetails) -> Reachable {
    if smtp.has_full_inbox || smtp.is_disabled || misc.is_role_account {
        Reachable::Risky
    } else if !smtp.is_deliverable {
        Reachable::Invalid
    } else if smtp.is_catch_all {
        Reachable::Risky
    } else {
        Reachable::Safe
    }
}

/// The verdict on a probe that failed: a permanent rejection of the mailbox
/// is invalid, every other error leaves the verdict unknown.
pub open spec fn verdict_of_error(error: SmtpErrorView) -> Reachable {
    if class_of(error) == ErrorClass::PermanentMailbox {
        Reachable::Invalid
    } else {
        Reachable::Unknown
    }
}

/// The verdict that the four sub-results give. They are looked at in the
/// order syntax, MX, misc, SMTP, and the first that decides, decides.
pub open spec fn verdict(
    syntax: SyntaxView,
    mx: Result<MxView, Seq<char>>,
    misc: Result<MiscDetails, Seq<char>>,
    smtp: Result<SmtpDetails, SmtpErrorView>,
) -> Reachable {
    if !syntax.is_valid_syntax {
        Reachable::Invalid
    } else {
        match mx {
            Err(_) => Reachable::Unknown,
            Ok(found) => if !found.accepts_mail() {
                Reachable::Invalid
            } else {
                match misc {
                    Err(_) => Reachable::Unknown,
                    Ok(m) => match smtp {
                        Err(e) => verdict_of_error(e),
                        Ok(s) => verdict_of_reply(m, s),
                    },
                }
            },
        }
    }
}

/// The verdict that the four sub-results give.
pub fn derive_reachable(
    syntax: &SyntaxDetails,
    mx: &Result<MxDetails, ProbeError>,
    misc: &Result<MiscDetails, ProbeError>,
    smtp: &Result<SmtpDetails, SmtpError>,
) -> (r: Reachable)
    ensures
        r == verdict(syntax@, mx_view(*mx), misc_view(*misc), smtp_view(*smtp)),
{
    if !syntax.is_valid_syntax() {
        return Reachable::Invalid;
    }
    match mx {
        Err(_) => Reachable::Unknown,
        Ok(found) => {
            if !found.accepts_mail() {
                return Reachable::Invalid;
            }
            match misc {
                Err(_) => Reachable::Unknown,
                Ok(m) => match smtp {
                    Err(e) => {
                        if classify(e) == ErrorClass::PermanentMailbox {
                            Reachable::Invalid
                        } else {
                            Reachable::Unknown
                        }
                    },
                    Ok(s) => {
                        if s.has_full_inbox || s.is_disabled || m.is_role_account {
                            Reachable::Risky
                        } else if !s.is_deliverable {
                            Reachable::Invalid
                        } else if s.is_catch_all {
                            Reachable::Risky
                        } else {
                            Reachable::Safe
                        }
                    },
                },
            }
        },
    }
}

/// The model of a verification output.
pub struct OutputView {
    pub input: Seq<char>,
    pub is_reachable: Reachable,
    pub misc: Result<MiscDetails, Seq<char>>,
    pub mx: Result<MxView, Seq<char>>,
    pub smtp: Result<SmtpDetails, SmtpErrorView>,
    pub syntax: SyntaxView,
}

/// The output for an address that did not parse: the verdict is `Invalid`
/// and no probe was attempted.
pub open spec fn invalid_output(input: Seq<char>) -> OutputView {
    OutputView {
        input,
        is_reachable: Reachable::Invalid,
        misc: Ok(misc_not_attempted()),
        mx: Ok(MxView { records: Seq::empty() }),
        smtp: Ok(smtp_not_attempted()),
        syntax: invalid_syntax(),
    }
}

/// The output that is assembled from an address and its four sub-results:
/// that of `invalid_output` if the address did not parse, and else the four
/// sub-results as they are, with the verdict they give.
pub open spec fn assembled(
    input: Seq<char>,
    syntax: SyntaxView,
    mx: Result<MxView, Seq<char>>,
    misc: Result<MiscDetails, Seq<char>>,
    smtp: Result<SmtpDetails, SmtpErrorView>,
) -> OutputView {
    if syntax.is_valid_syntax {
        OutputView { input, is_reachable: verdict(syntax, mx, misc, smtp), misc, mx, smtp, syntax }
    } else {
        invalid_output(input)
    }
}

/// What holds of every verification output: its verdict is the one its
/// sub-results give, and if its address did not parse, no probe was
/// attempted.
pub open spec fn output_consistent(o: OutputView) -> bool {
    &&& syntax_consistent(o.syntax)
    &&& o.is_reachable == verdict(o.syntax, o.mx, o.misc, o.smtp)
    &&& !o.syntax.is_valid_syntax ==> o == invalid_output(o.input)
}

/// A verification output.
#[derive(Debug)]
pub struct CheckEmailOutput {
    input: String,
    is_reachable: Reachable,
    misc: Result<MiscDetails, ProbeError>,
    mx: Result<MxDetails, ProbeError>,
    smtp: Result<SmtpDetails, SmtpError>,
    syntax: SyntaxDetails,
}

impl View for CheckEmailOutput {
    type V = OutputView;

    closed spec fn view(&self) -> OutputView {
        OutputView {
            input: self.input@,
            is_reachable: self.is_reachable,
            misc: misc_view(self.misc),
            mx: mx_view(self.mx),
            smtp: smtp_view(self.smtp),
            syntax: self.syntax@,
        }
    }
}

impl CheckEmailOutput {
    #[verifier::type_invariant]
    spec fn inv(self) -> bool {
        output_consistent(self@)
    }

    /// The output for an address that did not parse.
    pub fn invalid_syntax(input: String) -> (o: CheckEmailOutput)
        ensures
            o@ == invalid_output(input@),
    {
        let o = CheckEmailOutput {
            input,
            is_reachable: Reachable::Invalid,
            misc: Ok(MiscDetails::default()),
            mx: Ok(MxDetails::none()),
            smtp: Ok(SmtpDetails::default()),
            syntax: SyntaxDetails::invalid(),
        };
        o
    }

    /// The output for an address and its four sub-results. If the address
    /// did not parse, the probes count as not attempted.
    pub fn new(
        input: String,
        syntax: SyntaxDetails,
        mx: Result<MxDetails, ProbeError>,
        misc: Result<MiscDetails, ProbeError>,
        smtp: Result<SmtpDetails, SmtpError>,
    ) -> (o: CheckEmailOutput)
        ensures
            o@ == assembled(input@, syntax@, mx_view(mx), misc_view(misc), smtp_view(smtp)),
    {
        if !syntax.is_valid_syntax() {
            return CheckEmailOutput::invalid_syntax(input);
        }
        let is_reachable = derive_reachable(&syntax, &mx, &misc, &smtp);
        CheckEmailOutput { input, is_reachable, misc, mx, smtp, syntax }
    }

    /// The address that was checked.
    pub fn input(&self) -> (input: &String)
        ensures
            input@ == self@.input,
    {
        &self.input
    }

    /// The verdict.
    pub fn is_reachable(&self) -> (r: Reachable)
        ensures
            output_consistent(self@),
            r == self@.is_reachable,
    {
        proof {
            use_type_invariant(self);
        }
        self.is_reachable
    }

    /// The syntax sub-result.
    pub fn syntax(&self) -> (s: &SyntaxDetails)
        ensures
            output_consistent(self@),
            s@ == self@.syntax,
    {
        proof {
            use_type_invariant(self);
        }
        &self.syntax
    }

    /// The MX sub-result.
    pub fn mx(&self) -> (mx: &Result<MxDetails, ProbeError>)
        ensures
            output_consistent(self@),
            mx_view(*mx) == self@.mx,
    {
        proof {
            use_type_invariant(self);
        }
        &self.mx
    }

    /// The misc sub-result.
    pub fn misc(&self) -> (misc: &Result<MiscDetails, ProbeError>)
        ensures
            output_consistent(self@),
            misc_view(*misc) == self@.misc,
    {
        proof {
            use_type_invariant(self);
        }
        &self.misc
    }

    /// The SMTP sub-result.
    pub fn smtp(&self) -> (smtp: &Result<SmtpDetails, SmtpError>)
        ensures
            output_consistent(self@),
            smtp_view(*smtp) == self@.smtp,
    {
        proof {
            use_type_invariant(self);
        }
        &self.smtp
    }
}

/// The model of an optional output.
pub open spec fn output_view(output: Option<CheckEmailOutput>) -> Option<OutputView> {
    match output {
        Some(o) => Some(o@),
        None => None,
    }
}

/// An output whose address did not parse has the verdict `Invalid`, no MX
/// record, and an SMTP sub-result that says no connection was made.
pub proof fn lemma_invalid_syntax_forces_invalid(o: OutputView)
    requires
        output_consistent(o),
        !o.syntax.is_valid_syntax,
    ensures
        o.is_reachable == Reachable::Invalid,
        o.mx == Ok::<MxView, Seq<char>>(MxView { records: Seq::empty() }),
        o.smtp matches Ok(s) && !s.can_connect_smtp,
{
}

/// The verdict is a function of the four sub-results: two consistent outputs
/// with the same sub-results have the same verdict.
pub proof fn lemma_verdict_is_function_of_sub_results(a: OutputView, b: OutputView)
    requires
        output_consistent(a),
        output_consistent(b),
        a.syntax == b.syntax,
        a.mx == b.mx,
        a.misc == b.misc,
        a.smtp == b.smtp,
    ensures
        a.is_reachable == b.is_reachable,
{
}

/// A verdict is `Safe` only for an address that parsed, on a domain with an
/// exchanger, whose server accepted the recipient and is no catch-all, whose
/// mailbox is neither full nor disabled, and that is no role account.
pub proof fn lemma_safe_means_deliverable(o: OutputView)
    requires
        output_consistent(o),
        o.is_reachable == Reachable::Safe,
    ensures
        o.syntax.is_valid_syntax,
        o.mx matches Ok(found) && found.accepts_mail(),
        o.misc matches Ok(m) && !m.is_role_account,
        o.smtp matches Ok(s) && s.is_deliverable && !s.is_catch_all && !s.has_full_inbox
            && !s.is_disabled,
{
}

} // verus!
