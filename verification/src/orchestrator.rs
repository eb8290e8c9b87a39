//! The verification orchestrator as a state machine.
//!
//! The machine decides; its caller does the work. `Orchestration::begin`
//! checks the syntax and either ends at once or asks for a race of the two
//! transports. The caller runs the race, cutting each leg at the race's
//! timeout, and hands what the legs gave to `after_race`, which ends the
//! check or asks for another race. No more than `MAX_RETRIES + 1` races are
//! ever asked for.

use crate::classifier::{blames_transport, class_of, classify, ErrorClass, SmtpError, SmtpErrorView};
use crate::input::{first_of, CheckEmailInput, InputView};
use crate::output::{
    assembled, check_syntax, invalid_output, output_consistent, output_view, parsed_from,
    syntax_consistent,
    CheckEmailOutput, OutputView, ProbeError, Reachable, SyntaxDetails, SyntaxView,
};
use vstd::prelude::*;

verus! {

/// The number of times a check is tried again after its first race.
pub const MAX_RETRIES: u8 = 2;

/// The longest deadline, in seconds, that one attempt is given.
pub const MAX_ATTEMPT_TIMEOUT_SECS: u64 = 10;

/// How the SMTP server is reached.
#[derive(Clone, Copy, Debug, PartialEq, Eq, Structural)]
pub enum RetryOption {
    /// From the verifier's own address.
    Direct,
    /// Through the SOCKS5 proxy of the input.
    Proxy,
}

impl RetryOption {
    /// The opposite transport.
    pub open spec fn rotated(self) -> RetryOption {
        match self {
            RetryOption::Direct => RetryOption::Proxy,
            RetryOption::Proxy => RetryOption::Direct,
        }
    }

    /// The opposite transport.
    pub fn rotate(self) -> (other: RetryOption)
        ensures
            other == self.rotated(),
    {
        match self {
            RetryOption::Direct => RetryOption::Proxy,
            RetryOption::Proxy => RetryOption::Direct,
        }
    }
}

/// Rotating twice gives the transport one started with.
pub proof fn lemma_rotate_twice(option: RetryOption)
    ensures
        option.rotated().rotated() == option,
        option.rotated() != option,
{
}

/// The description that stands for a probe that gave no answer in time.
pub open spec fn deadline_text() -> Seq<char> {
    "deadline exceeded"@
}

/// The output of a check none of whose probes answered in time: every probe
/// reports the deadline, and the verdict is `Unknown`.
pub open spec fn timed_out_output(input: Seq<char>, syntax: SyntaxView) -> OutputView {
    assembled(
        input,
        syntax,
        Err(deadline_text()),
        Err(deadline_text()),
        Err(SmtpErrorView::Timeout),
    )
}

/// What the two legs of a race gave. A leg that was cut at the timeout, was
/// cancelled, or was not run gives nothing.
#[derive(Debug)]
pub struct RaceResult {
    /// What the direct leg gave.
    pub direct: Option<CheckEmailOutput>,
    /// What the proxied leg gave.
    pub proxy: Option<CheckEmailOutput>,
    /// The leg that ended first.
    pub first_done: RetryOption,
}

/// The model of a race's result.
pub struct RaceView {
    pub direct: Option<OutputView>,
    pub proxy: Option<OutputView>,
    pub first_done: RetryOption,
}

impl View for RaceResult {
    type V = RaceView;

    open spec fn view(&self) -> RaceView {
        RaceView {
            direct: output_view(self.direct),
            proxy: output_view(self.proxy),
            first_done: self.first_done,
        }
    }
}

impl RaceView {
    /// What the leg of the given transport gave.
    pub open spec fn leg(self, option: RetryOption) -> Option<OutputView> {
        match option {
            RetryOption::Direct => self.direct,
            RetryOption::Proxy => self.proxy,
        }
    }

    /// The output that wins the race: that of the leg that ended first if it
    /// is conclusive, else that of the other leg if it is conclusive.
    pub open spec fn winner(self) -> Option<OutputView> {
        if self.leg(self.first_done) matches Some(o) && o.is_reachable.conclusive() {
            self.leg(self.first_done)
        } else if self.leg(self.first_done.rotated()) matches Some(o)
            && o.is_reachable.conclusive() {
            self.leg(self.first_done.rotated())
        } else {
            None
        }
    }
}

/// Does the output hold an SMTP error that blames the transport?
pub open spec fn transport_blamed(output: Option<OutputView>) -> bool {
    output matches Some(o) && o.smtp matches Err(e) && blames_transport(class_of(e))
}

/// The model of an orchestration that waits for a race.
pub struct OrchestrationView {
    /// The input of the check.
    pub input: InputView,
    /// The syntax sub-result, which is valid.
    pub syntax: SyntaxView,
    /// The number of races that have ended without a winner.
    pub attempt: nat,
    /// The transport whose errors decide on the next rotation.
    pub preferred: RetryOption,
    /// The last output that was collected, if any was.
    pub last: Option<OutputView>,
}

/// What holds of every orchestration that waits for a race: its address
/// parsed, it is within its retries, and what it collected is inconclusive.
pub open spec fn orchestration_consistent(s: OrchestrationView) -> bool {
    &&& syntax_consistent(s.syntax)
    &&& s.syntax.is_valid_syntax
    &&& s.attempt <= MAX_RETRIES
    &&& s.last matches Some(o) ==> output_consistent(o) && o.is_reachable == Reachable::Unknown
}

/// The model of what the machine asks for next.
pub enum StepView {
    /// Run a race and come back with its result.
    Race(OrchestrationView),
    /// The check has ended with this output.
    Final(OutputView),
}

/// The deadline of one attempt, in seconds: that of the input, and not more
/// than `MAX_ATTEMPT_TIMEOUT_SECS`.
pub open spec fn attempt_timeout(input: InputView) -> u64 {
    if input.smtp_timeout <= MAX_ATTEMPT_TIMEOUT_SECS {
        input.smtp_timeout
    } else {
        MAX_ATTEMPT_TIMEOUT_SECS
    }
}

/// The deadline of the whole check, in seconds.
pub open spec fn overall_deadline(input: InputView) -> int {
    (MAX_RETRIES + 1) * attempt_timeout(input)
}

/// The time since the start of the check, in seconds, by which the race
/// that a state waits for has ended, every race being cut at its timeout.
pub open spec fn race_ends_by(s: OrchestrationView) -> int {
    (s.attempt + 1) * attempt_timeout(s.input)
}

/// The first step of a check, given the syntax sub-result of its address.
pub open spec fn first_step(input: InputView, syntax: SyntaxView, preferred: RetryOption) -> StepView {
    if syntax.is_valid_syntax {
        StepView::Race(OrchestrationView { input, syntax, attempt: 0, preferred, last: None })
    } else {
        StepView::Final(invalid_output(input.to_email))
    }
}

/// The output that an orchestration has to show when it ends without a
/// winner: the last it collected, or that of a check that timed out.
pub open spec fn last_or_timed_out(s: OrchestrationView, last: Option<OutputView>) -> OutputView {
    match last {
        Some(o) => o,
        None => timed_out_output(s.input.to_email, s.syntax),
    }
}

/// The output that is kept after a race without a winner: that of the
/// preferred leg, else that of the other leg, else what was kept before.
pub open spec fn kept_after(s: OrchestrationView, result: RaceView) -> Option<OutputView> {
    first_of(
        result.leg(s.preferred),
        first_of(result.leg(s.preferred.rotated()), s.last),
    )
}

/// The step after a race. A winner ends the check. Without a winner the
/// check is tried again while retries are left, with the opposite transport
/// preferred if the preferred leg's error blamed the transport; with no
/// retry left it ends with the last output collected.
pub open spec fn next_step(s: OrchestrationView, result: RaceView) -> StepView {
    match result.winner() {
        Some(o) => StepView::Final(o),
        None => if s.attempt < MAX_RETRIES {
            StepView::Race(
                OrchestrationView {
                    input: s.input,
                    syntax: s.syntax,
                    attempt: s.attempt + 1,
                    preferred: if transport_blamed(result.leg(s.preferred)) {
                        s.preferred.rotated()
                    } else {
                        s.preferred
                    },
                    last: kept_after(s, result),
                },
            )
        } else {
            StepView::Final(last_or_timed_out(s, kept_after(s, result)))
        },
    }
}

/// The race that an orchestration waits for.
#[derive(Clone, Copy, Debug, PartialEq, Eq, Structural)]
pub struct RacePlan {
    /// The number of races that have ended before this one.
    pub attempt: u8,
    /// The preferred transport.
    pub preferred: RetryOption,
    /// The deadline of each leg, in seconds.
    pub timeout_secs: u64,
    /// Whether the input names a proxy, so that the proxied leg can run.
    pub has_proxy: bool,
}

/// An orchestration that waits for a race.
#[derive(Debug)]
pub struct Orchestration {
    input: CheckEmailInput,
    syntax: SyntaxDetails,
    attempt: u8,
    preferred: RetryOption,
    last: Option<CheckEmailOutput>,
}

impl View for Orchestration {
    type V = OrchestrationView;

    closed spec fn view(&self) -> OrchestrationView {
        OrchestrationView {
            input: self.input@,
            syntax: self.syntax@,
            attempt: self.attempt as nat,
            preferred: self.preferred,
            last: output_view(self.last),
        }
    }
}

/// What the machine asks for next.
#[derive(Debug)]
pub enum Step {
    /// Run the race that the orchestration plans and come back with its
    /// result.
    Race(Orchestration),
    /// The check has ended with this output.
    Final(CheckEmailOutput),
}

impl View for Step {
    type V = StepView;

    open spec fn view(&self) -> StepView {
        match self {
            Step::Race(s) => StepView::Race(s@),
            Step::Final(o) => StepView::Final(o@),
        }
    }
}

/// Does an address end in an `@` and a part without a period?
pub open spec fn has_dotless_domain(email: Seq<char>) -> bool {
    exists|username: Seq<char>, domain: Seq<char>|
        email == #[trigger] (username + seq!['@'] + domain) && !domain.contains('.')
}

/// In a text made of two parts without `@` around one `@`, the `@` stands
/// where the first part ends, and nowhere else.
proof fn lemma_single_at_sign(username: Seq<char>, domain: Seq<char>, at: int)
    requires
        !username.contains('@'),
        !domain.contains('@'),
        0 <= at < (username + seq!['@'] + domain).len(),
    ensures
        (username + seq!['@'] + domain)[at] == '@' <==> at == username.len(),
{
    let email = username + seq!['@'] + domain;
    if at < username.len() {
        assert(email[at] == username[at]);
    } else if at > username.len() {
        assert(email[at] == domain[at - username.len() - 1]);
    }
}

/// An address without `@` has no valid syntax sub-result.
pub proof fn lemma_no_at_sign_is_invalid(email: Seq<char>, syntax: SyntaxView)
    requires
        parsed_from(email, syntax),
        !email.contains('@'),
    ensures
        !syntax.is_valid_syntax,
        syntax.username == Seq::<char>::empty(),
{
    if syntax.is_valid_syntax {
        assert(email[syntax.username.len() as int] == '@');
    }
}

/// An address whose part after the `@` has no period has no valid syntax
/// sub-result.
pub proof fn lemma_dotless_domain_is_invalid(email: Seq<char>, syntax: SyntaxView)
    requires
        parsed_from(email, syntax),
        has_dotless_domain(email),
    ensures
        !syntax.is_valid_syntax,
{
    if syntax.is_valid_syntax {
        let (username, domain) = choose|username: Seq<char>, domain: Seq<char>|
            email == #[trigger] (username + seq!['@'] + domain) && !domain.contains('.');
        let at = username.len() as int;
        assert(email[at] == '@');
        lemma_single_at_sign(syntax.username, syntax.domain, at);
        assert(domain =~= email.skip(at + 1));
        assert(syntax.domain =~= email.skip(at + 1));
    }
}

impl Orchestration {
    #[verifier::type_invariant]
    spec fn inv(self) -> bool {
        orchestration_consistent(self@)
    }

    /// The first step of a check, given the syntax sub-result of its
    /// address: an address that did not parse ends the check as `Invalid`,
    /// one that parsed asks for the first race.
    pub fn begin_with_syntax(
        input: CheckEmailInput,
        syntax: SyntaxDetails,
        preferred: RetryOption,
    ) -> (step: Step)
        ensures
            step@ == first_step(input@, syntax@, preferred),
    {
        if syntax.is_valid_syntax() {
            Step::Race(Orchestration { input, syntax, attempt: 0, preferred, last: None })
        } else {
            Step::Final(CheckEmailOutput::invalid_syntax(input.to_email))
        }
    }

    /// The first step of a check: the syntax of the address is checked, and
    /// the check goes on as `begin_with_syntax` says. An address without
    /// `@`, and one whose part after the `@` has no period, ends the check
    /// as `Invalid`.
    pub fn begin(input: CheckEmailInput, preferred: RetryOption) -> (step: Step)
        ensures
            exists|syntax: SyntaxView|
                parsed_from(input@.to_email, syntax) && step@ == #[trigger] first_step(
                    input@,
                    syntax,
                    preferred,
                ),
            !input@.to_email.contains('@') ==> step@ == StepView::Final(
                invalid_output(input@.to_email),
            ),
            has_dotless_domain(input@.to_email) ==> step@ == StepView::Final(
                invalid_output(input@.to_email),
            ),
    {
        let syntax = check_syntax(input.to_email.as_str());
        proof {
            if !input@.to_email.contains('@') {
                lemma_no_at_sign_is_invalid(input@.to_email, syntax@);
            }
            if has_dotless_domain(input@.to_email) {
                lemma_dotless_domain_is_invalid(input@.to_email, syntax@);
            }
        }
        Orchestration::begin_with_syntax(input, syntax, preferred)
    }

    /// The input of the check.
    pub fn input(&self) -> (input: &CheckEmailInput)
        ensures
            input@ == self@.input,
    {
        &self.input
    }

    /// The race that this orchestration waits for.
    pub fn plan(&self) -> (plan: RacePlan)
        ensures
            orchestration_consistent(self@),
            plan.attempt == self@.attempt,
            plan.attempt <= MAX_RETRIES,
            plan.preferred == self@.preferred,
            plan.timeout_secs == attempt_timeout(self@.input),
            plan.has_proxy == (self@.input.proxy is Some),
    {
        proof {
            use_type_invariant(self);
        }
        let timeout_secs = if self.input.smtp_timeout <= MAX_ATTEMPT_TIMEOUT_SECS {
            self.input.smtp_timeout
        } else {
            MAX_ATTEMPT_TIMEOUT_SECS
        };
        RacePlan {
            attempt: self.attempt,
            preferred: self.preferred,
            timeout_secs,
            has_proxy: self.input.proxy.is_some(),
        }
    }

    /// The deadline of the whole check, in seconds.
    pub fn overall_deadline_secs(&self) -> (secs: u64)
        ensures
            secs == overall_deadline(self@.input),
    {
        let plan = self.plan();
        let races: u64 = MAX_RETRIES as u64 + 1;
        assert(races == 3 && plan.timeout_secs <= MAX_ATTEMPT_TIMEOUT_SECS);
        races * plan.timeout_secs
    }

    /// The output of a check none of whose probes answered in time.
    fn timed_out(to_email: String, syntax: SyntaxDetails) -> (o: CheckEmailOutput)
        ensures
            o@ == timed_out_output(to_email@, syntax@),
    {
        CheckEmailOutput::new(
            to_email,
            syntax,
            Err(ProbeError { text: "deadline exceeded".to_string() }),
            Err(ProbeError { text: "deadline exceeded".to_string() }),
            Err(SmtpError::Timeout),
        )
    }

    /// The step after a race.
    pub fn after_race(self, result: RaceResult) -> (step: Step)
        ensures
            step@ == next_step(self@, result@),
    {
        proof {
            use_type_invariant(&self);
        }
        let RaceResult { direct, proxy, first_done } = result;
        let (first, second) = match first_done {
            RetryOption::Direct => (direct, proxy),
            RetryOption::Proxy => (proxy, direct),
        };
        let first_wins = match &first {
            Some(o) => o.is_reachable().is_conclusive(),
            None => false,
        };
        if first_wins {
            return Step::Final(first.unwrap());
        }
        let second_wins = match &second {
            Some(o) => o.is_reachable().is_conclusive(),
            None => false,
        };
        if second_wins {
            return Step::Final(second.unwrap());
        }
        let (preferred_leg, other_leg) = if first_done == self.preferred {
            (first, second)
        } else {
            (second, first)
        };
        let blamed = match &preferred_leg {
            Some(o) => match o.smtp() {
                Err(e) => {
                    let class = classify(e);
                    class == ErrorClass::PermanentBlacklist || class
                        == ErrorClass::TransientBlacklist
                },
                Ok(_) => false,
            },
            None => false,
        };
        let Orchestration { input, syntax, attempt, preferred, last } = self;
        let kept = match preferred_leg {
            Some(o) => Some(o),
            None => match other_leg {
                Some(o) => Some(o),
                None => last,
            },
        };
        if attempt < MAX_RETRIES {
            let next = if blamed {
                preferred.rotate()
            } else {
                preferred
            };
            Step::Race(
                Orchestration { input, syntax, attempt: attempt + 1, preferred: next, last: kept },
            )
        } else {
            Step::Final(
                match kept {
                    Some(o) => o,
                    None => Orchestration::timed_out(input.to_email, syntax),
                },
            )
        }
    }

    /// The output of a check whose overall deadline has passed: the last
    /// output collected, or that of a check that timed out. Its verdict is
    /// `Unknown`.
    pub fn on_deadline(self) -> (o: CheckEmailOutput)
        ensures
            o@ == last_or_timed_out(self@, self@.last),
            o@.is_reachable == Reachable::Unknown,
    {
        proof {
            use_type_invariant(&self);
        }
        let Orchestration { input, syntax, attempt, preferred, last } = self;
        match last {
            Some(o) => o,
            None => Orchestration::timed_out(input.to_email, syntax),
        }
    }
}

/// The state in which a check is after the given races, one after another,
/// from the state `s`: the races after the one that ends the check are not
/// run.
pub open spec fn run(s: OrchestrationView, races: Seq<RaceView>) -> StepView
    decreases races.len(),
{
    if races.len() == 0 {
        StepView::Race(s)
    } else {
        match next_step(s, races[0]) {
            StepView::Final(o) => StepView::Final(o),
            StepView::Race(next) => run(next, races.drop_first()),
        }
    }
}

/// Every race that is asked for ends within the overall deadline, which is
/// `MAX_RETRIES + 1` attempt timeouts and at most thirty seconds.
pub proof fn lemma_race_ends_within_deadline(s: OrchestrationView)
    requires
        orchestration_consistent(s),
    ensures
        race_ends_by(s) <= overall_deadline(s.input),
        overall_deadline(s.input) <= (MAX_RETRIES + 1) * MAX_ATTEMPT_TIMEOUT_SECS,
        overall_deadline(s.input) <= (MAX_RETRIES + 1) * s.input.smtp_timeout,
{
    assert(race_ends_by(s) <= overall_deadline(s.input)) by (nonlinear_arith)
        requires
            s.attempt <= MAX_RETRIES,
            race_ends_by(s) == (s.attempt + 1) * attempt_timeout(s.input),
            overall_deadline(s.input) == (MAX_RETRIES + 1) * attempt_timeout(s.input),
    ;
}

/// A step keeps an orchestration consistent, takes it one attempt further,
/// and ends it with a consistent output.
pub proof fn lemma_next_step_consistent(s: OrchestrationView, result: RaceView)
    requires
        orchestration_consistent(s),
        result.direct matches Some(o) ==> output_consistent(o),
        result.proxy matches Some(o) ==> output_consistent(o),
    ensures
        match next_step(s, result) {
            StepView::Race(next) => {
                &&& orchestration_consistent(next)
                &&& next.attempt == s.attempt + 1
                &&& next.input == s.input
                &&& result.winner() is None
            },
            StepView::Final(o) => {
                &&& output_consistent(o)
                &&& o.is_reachable.conclusive() <==> result.winner() is Some
            },
        },
{
}

/// A check ends after at most `MAX_RETRIES + 1` races, whatever the races
/// give: from a state with `attempt` races behind it, any `MAX_RETRIES + 1 -
/// attempt` further races end it.
pub proof fn lemma_run_ends(s: OrchestrationView, races: Seq<RaceView>)
    requires
        orchestration_consistent(s),
        forall|i: int|
            0 <= i < races.len() ==> ((#[trigger] races[i]).direct matches Some(o)
                ==> output_consistent(o)) && (races[i].proxy matches Some(o) ==> output_consistent(
                o,
            )),
        races.len() >= MAX_RETRIES + 1 - s.attempt,
    ensures
        run(s, races) is Final,
    decreases races.len(),
{
    lemma_next_step_consistent(s, races[0]);
    match next_step(s, races[0]) {
        StepView::Final(_) => {},
        StepView::Race(next) => {
            let rest = races.drop_first();
            assert forall|i: int| 0 <= i < rest.len() implies ((#[trigger] rest[i]).direct matches Some(
                o,
            ) ==> output_consistent(o)) && (rest[i].proxy matches Some(o) ==> output_consistent(
                o,
            )) by {
                assert(rest[i] == races[i + 1]);
            }
            lemma_run_ends(next, rest);
        },
    }
}

} // verus!
