use vstd::prelude::*;
use crate::error::{Error, PlatformError};
use crate::outcome::{convert, normalized, Availability, VerificationResult};
use crate::policy::Policy;
use crate::text::{caption, utf16_of};

verus! {

/// What the platform needs to build a context; this backend needs nothing.
pub type RawContext = ();

/// Entry point for authentication attempts on this backend.
#[derive(Debug)]
pub struct Context;

/// How the caller waits for the platform: by blocking its thread, or by
/// suspending a task. The decisions of an attempt never depend on it.
#[derive(Debug, Clone, Copy, PartialEq, Eq, Structural)]
pub enum Mode {
    Blocking,
    Suspending,
}

/// What became of an asynchronous platform operation.
#[derive(Debug, Clone, Copy, PartialEq, Eq)]
pub enum OsOutcome<T> {
    /// The operation could not be started.
    Rejected(PlatformError),
    /// The operation started, but its result could not be delivered.
    Failed(PlatformError),
    /// The operation delivered a result.
    Completed(T),
}

/// Where one authentication attempt stands.
#[derive(Debug, Clone, Copy, PartialEq, Eq)]
pub enum Stage {
    /// Waiting for the availability probe, which always comes first.
    Probing,
    /// Waiting for the live verification request.
    Verifying,
    /// Waiting for the fallback authenticator.
    FallingBack,
    /// Done, with the attempt's result.
    Finished(Result<(), Error>),
}

/// What the platform or the fallback authenticator answered.
#[derive(Debug, Clone, Copy, PartialEq, Eq)]
pub enum Event {
    Availability(OsOutcome<Availability>),
    Verification(OsOutcome<VerificationResult>),
    Fallback(Result<(), Error>),
}

/// What the caller must do next for an attempt.
#[derive(Debug, PartialEq, Eq)]
pub enum Action {
    /// Ask the platform whether a verifier can be used now.
    CheckAvailability,
    /// Issue a live verification request with this caption (UTF-16, zero
    /// terminated).
    RequestVerification(Vec<u16>),
    /// Hand this prompt text to the fallback authenticator.
    Fallback(String),
    /// Return this result to the caller.
    Finish(Result<(), Error>),
}

/// One authentication attempt, from the probe to its result.
#[derive(Debug)]
pub struct Authentication {
    mode: Mode,
    message: String,
    stage: Stage,
}

pub struct AuthenticationView {
    pub mode: Mode,
    pub message: Seq<char>,
    pub stage: Stage,
}

impl View for Authentication {
    type V = AuthenticationView;

    closed spec fn view(&self) -> AuthenticationView {
        AuthenticationView { mode: self.mode, message: self.message@, stage: self.stage }
    }
}

/// Whether a probe outcome sends the attempt down the live path (`Ok(true)`),
/// to the fallback (`Ok(false)`), or ends it. A probe that cannot be
/// completed, whether it fails to start or its answer is never delivered,
/// ends the attempt with an error.
pub open spec fn availability_decision(probe: OsOutcome<Availability>) -> Result<bool, Error> {
    match probe {
        OsOutcome::Rejected(_) => Err(Error::Unknown),
        OsOutcome::Failed(_) => Err(Error::Unknown),
        OsOutcome::Completed(a) => Ok(a == Availability::Available),
    }
}

/// The portable result of a live verification request.
pub open spec fn verification_result(outcome: OsOutcome<VerificationResult>) -> Result<(), Error> {
    match outcome {
        OsOutcome::Rejected(_) => Err(Error::Unknown),
        OsOutcome::Failed(_) => Err(Error::Unknown),
        OsOutcome::Completed(v) => normalized(v),
    }
}

/// A fresh attempt in the given mode.
pub open spec fn start(mode: Mode, message: Seq<char>) -> AuthenticationView {
    AuthenticationView { mode, message, stage: Stage::Probing }
}

/// The stage after `event`. An event that the stage does not wait for
/// changes nothing.
pub open spec fn next_stage(stage: Stage, event: Event) -> Stage {
    match (stage, event) {
        (Stage::Probing, Event::Availability(probe)) => match availability_decision(probe) {
            Err(e) => Stage::Finished(Err(e)),
            Ok(true) => Stage::Verifying,
            Ok(false) => Stage::FallingBack,
        },
        (Stage::Verifying, Event::Verification(outcome)) => Stage::Finished(
            verification_result(outcome),
        ),
        (Stage::FallingBack, Event::Fallback(result)) => Stage::Finished(result),
        _ => stage,
    }
}

/// The attempt after `event`.
pub open spec fn next(a: AuthenticationView, event: Event) -> AuthenticationView {
    AuthenticationView { stage: next_stage(a.stage, event), ..a }
}

/// The attempt after each of `events`, in order.
pub open spec fn run(a: AuthenticationView, events: Seq<Event>) -> AuthenticationView
    decreases events.len(),
{
    if events.len() == 0 {
        a
    } else {
        run(next(a, events[0]), events.drop_first())
    }
}

/// The action that an attempt in view `a` asks for.
pub open spec fn is_action_of(a: AuthenticationView, action: Action) -> bool {
    match a.stage {
        Stage::Probing => action is CheckAvailability,
        Stage::Verifying => action matches Action::RequestVerification(c) && c@ == utf16_of(
            a.message,
        ).push(0),
        Stage::FallingBack => action matches Action::Fallback(m) && m@ == a.message,
        Stage::Finished(r) => action == Action::Finish(r),
    }
}

/// Once an attempt has gone to the fallback, or finished, no sequence of
/// events brings it to the live path.
proof fn lemma_stays_off_live_path(a: AuthenticationView, events: Seq<Event>)
    requires
        a.stage is FallingBack || a.stage is Finished,
    ensures
        run(a, events).stage !is Verifying,
        run(a, events).stage is FallingBack || run(a, events).stage is Finished,
    decreases events.len(),
{
    if events.len() > 0 {
        lemma_stays_off_live_path(next(a, events[0]), events.drop_first());
    }
}

/// When the probe reports no usable verifier, the attempt asks for the
/// fallback and never for a live verification request, whatever arrives
/// afterwards; the fallback's answer is the attempt's result, unchanged.
pub proof fn lemma_unavailable_never_requests(
    mode: Mode,
    message: Seq<char>,
    probe: OsOutcome<Availability>,
    fallback: Result<(), Error>,
    events: Seq<Event>,
)
    requires
        availability_decision(probe) == Ok::<bool, Error>(false),
    ensures
        ({
            let after = next(start(mode, message), Event::Availability(probe));
            &&& after.stage == Stage::FallingBack
            &&& run(after, events).stage !is Verifying
            &&& next(after, Event::Fallback(fallback)).stage == Stage::Finished(fallback)
        }),
{
    let after = next(start(mode, message), Event::Availability(probe));
    lemma_stays_off_live_path(after, events);
}

/// Two attempts that differ only in mode go through the same stages for the
/// same events.
proof fn lemma_mode_irrelevant(a: AuthenticationView, b: AuthenticationView, events: Seq<Event>)
    requires
        a.message == b.message,
        a.stage == b.stage,
    ensures
        run(a, events).message == run(b, events).message,
        run(a, events).stage == run(b, events).stage,
    decreases events.len(),
{
    if events.len() > 0 {
        lemma_mode_irrelevant(next(a, events[0]), next(b, events[0]), events.drop_first());
    }
}

/// A blocking and a suspending attempt on the same prompt, given the same
/// platform and fallback answers, reach the same stage and so ask for the
/// same actions and finish with the same result.
pub proof fn lemma_modes_agree(message: Seq<char>, events: Seq<Event>)
    ensures
        run(start(Mode::Blocking, message), events).stage == run(
            start(Mode::Suspending, message),
            events,
        ).stage,
        forall|action: Action|
            is_action_of(run(start(Mode::Blocking, message), events), action) <==> is_action_of(
                run(start(Mode::Suspending, message), events),
                action,
            ),
{
    lemma_mode_irrelevant(start(Mode::Blocking, message), start(Mode::Suspending, message), events);
}

/// Decides from a probe's outcome whether to take the live path.
pub fn check_availability(probe: OsOutcome<Availability>) -> (r: Result<bool, Error>)
    ensures
        r == availability_decision(probe),
{
    match probe {
        OsOutcome::Rejected(e) => Err(Error::from(e)),
        OsOutcome::Failed(e) => Err(Error::from(e)),
        OsOutcome::Completed(a) => Ok(a == Availability::Available),
    }
}

/// The live verification request for a prompt.
pub fn request_verification(message: &str) -> (r: Action)
    ensures
        r matches Action::RequestVerification(c) && c@ == utf16_of(message@).push(0),
{
    Action::RequestVerification(caption(message))
}

/// The portable result of a live verification request.
pub fn verification_outcome(outcome: OsOutcome<VerificationResult>) -> (r: Result<(), Error>)
    ensures
        r == verification_result(outcome),
{
    match outcome {
        OsOutcome::Rejected(e) => Err(Error::from(e)),
        OsOutcome::Failed(e) => Err(Error::from(e)),
        OsOutcome::Completed(v) => convert(v),
    }
}

impl Context {
    pub fn new(_raw: RawContext) -> Context {
        Context
    }

    /// Starts an attempt whose caller blocks its thread on each platform
    /// operation. Holding a policy is the proof that the factors were
    /// accepted.
    pub fn blocking_authenticate(&self, message: &str, _policy: &Policy) -> (r: Authentication)
        ensures
            r@ == start(Mode::Blocking, message@),
    {
        Authentication { mode: Mode::Blocking, message: message.to_owned(), stage: Stage::Probing }
    }

    /// Starts an attempt whose caller suspends a task on each platform
    /// operation.
    pub fn authenticate(&self, message: &str, _policy: &Policy) -> (r: Authentication)
        ensures
            r@ == start(Mode::Suspending, message@),
    {
        Authentication {
            mode: Mode::Suspending,
            message: message.to_owned(),
            stage: Stage::Probing,
        }
    }
}

impl Authentication {
    pub fn mode(&self) -> (r: Mode)
        ensures
            r == self@.mode,
    {
        self.mode
    }

    pub fn stage(&self) -> (r: Stage)
        ensures
            r == self@.stage,
    {
        self.stage
    }

    /// What the caller must do next.
    pub fn action(&self) -> (r: Action)
        ensures
            is_action_of(self@, r),
    {
        match self.stage {
            Stage::Probing => Action::CheckAvailability,
            Stage::Verifying => request_verification(self.message.as_str()),
            Stage::FallingBack => Action::Fallback(self.message.clone()),
            Stage::Finished(r) => Action::Finish(r),
        }
    }

    /// Takes in what the platform or the fallback answered.
    pub fn advance(&mut self, event: Event)
        ensures
            final(self)@ == next(old(self)@, event),
    {
        match (self.stage, event) {
            (Stage::Probing, Event::Availability(probe)) => {
                self.stage = match check_availability(probe) {
                    Err(e) => Stage::Finished(Err(e)),
                    Ok(true) => Stage::Verifying,
                    Ok(false) => Stage::FallingBack,
                };
            },
            (Stage::Verifying, Event::Verification(outcome)) => {
                self.stage = Stage::Finished(verification_outcome(outcome));
            },
            (Stage::FallingBack, Event::Fallback(result)) => {
                self.stage = Stage::Finished(result);
            },
            _ => {},
        }
    }
}

} // verus!
