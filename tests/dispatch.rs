use robius_authentication::{
    caption, check_availability, request_verification, verification_outcome, Action,
    Authentication, Availability, BiometricStrength, Context, Error, Event, Mode, OsOutcome,
    PlatformError, Policy, PolicyBuilder, Stage, VerificationResult,
};

const PROMPT: &str = "Confirm it's you";

fn policy() -> Policy {
    PolicyBuilder::new()
        .biometrics(Some(BiometricStrength::Strong))
        .password(true)
        .build()
        .unwrap()
}

fn utf16_zero(s: &str) -> Vec<u16> {
    let mut v: Vec<u16> = s.encode_utf16().collect();
    v.push(0);
    v
}

fn probe_available() -> Event {
    Event::Availability(OsOutcome::Completed(Availability::Available))
}

fn verified_with(result: VerificationResult) -> Event {
    Event::Verification(OsOutcome::Completed(result))
}

#[test]
fn available_and_verified_succeeds() {
    let ctx = Context::new(());
    let mut auth = ctx.blocking_authenticate(PROMPT, &policy());
    assert_eq!(auth.mode(), Mode::Blocking);
    assert_eq!(auth.action(), Action::CheckAvailability);
    auth.advance(probe_available());
    assert_eq!(auth.action(), Action::RequestVerification(utf16_zero(PROMPT)));
    auth.advance(verified_with(VerificationResult::Verified));
    assert_eq!(auth.action(), Action::Finish(Ok(())));
}

#[test]
fn unavailable_goes_to_fallback_with_same_prompt() {
    let ctx = Context::new(());
    let mut auth = ctx.blocking_authenticate(PROMPT, &policy());
    auth.advance(Event::Availability(OsOutcome::Completed(Availability::DeviceNotPresent)));
    assert_eq!(auth.action(), Action::Fallback(String::from(PROMPT)));
    auth.advance(Event::Fallback(Err(Error::UserCanceled)));
    assert_eq!(auth.action(), Action::Finish(Err(Error::UserCanceled)));
}

#[test]
fn fallback_result_is_returned_unmodified() {
    for result in [Ok(()), Err(Error::Busy), Err(Error::Unavailable), Err(Error::Unknown)] {
        let mut auth = Context::new(()).authenticate(PROMPT, &policy());
        auth.advance(Event::Availability(OsOutcome::Completed(Availability::DisabledByPolicy)));
        auth.advance(Event::Fallback(result));
        assert_eq!(auth.action(), Action::Finish(result));
    }
}

#[test]
fn unavailable_never_requests_verification() {
    let mut auth = Context::new(()).blocking_authenticate(PROMPT, &policy());
    auth.advance(Event::Availability(OsOutcome::Completed(Availability::NotConfiguredForUser)));
    auth.advance(verified_with(VerificationResult::Verified));
    assert_eq!(auth.stage(), Stage::FallingBack);
    auth.advance(probe_available());
    assert_eq!(auth.stage(), Stage::FallingBack);
    assert!(!matches!(auth.action(), Action::RequestVerification(_)));
}

#[test]
fn available_and_busy_returns_busy() {
    let mut auth = Context::new(()).blocking_authenticate(PROMPT, &policy());
    auth.advance(probe_available());
    auth.advance(verified_with(VerificationResult::DeviceBusy));
    assert_eq!(auth.action(), Action::Finish(Err(Error::Busy)));
}

fn drive(mut auth: Authentication, events: &[Event]) -> Action {
    for event in events {
        auth.advance(*event);
    }
    auth.action()
}

#[test]
fn blocking_and_suspending_agree() {
    let ctx = Context::new(());
    let runs: Vec<Vec<Event>> = vec![
        vec![probe_available(), verified_with(VerificationResult::Verified)],
        vec![probe_available(), verified_with(VerificationResult::RetriesExhausted)],
        vec![probe_available(), Event::Verification(OsOutcome::Failed(PlatformError))],
        vec![Event::Availability(OsOutcome::Completed(Availability::DeviceBusy)), Event::Fallback(Ok(()))],
        vec![Event::Availability(OsOutcome::Rejected(PlatformError))],
        vec![Event::Availability(OsOutcome::Failed(PlatformError)), Event::Fallback(Ok(()))],
        vec![probe_available()],
    ];
    for events in runs {
        let blocking = drive(ctx.blocking_authenticate(PROMPT, &policy()), &events);
        let suspending = drive(ctx.authenticate(PROMPT, &policy()), &events);
        assert_eq!(blocking, suspending);
    }
    assert_eq!(ctx.authenticate(PROMPT, &policy()).mode(), Mode::Suspending);
}

#[test]
fn rejected_probe_ends_with_unknown() {
    let mut auth = Context::new(()).blocking_authenticate(PROMPT, &policy());
    auth.advance(Event::Availability(OsOutcome::Rejected(PlatformError)));
    assert_eq!(auth.action(), Action::Finish(Err(Error::Unknown)));
}

#[test]
fn undelivered_probe_ends_with_unknown() {
    let mut auth = Context::new(()).blocking_authenticate(PROMPT, &policy());
    auth.advance(Event::Availability(OsOutcome::Failed(PlatformError)));
    assert_eq!(auth.action(), Action::Finish(Err(Error::Unknown)));
    auth.advance(Event::Fallback(Ok(())));
    auth.advance(verified_with(VerificationResult::Verified));
    assert_eq!(auth.action(), Action::Finish(Err(Error::Unknown)));
}

#[test]
fn failed_request_ends_with_unknown() {
    let mut auth = Context::new(()).blocking_authenticate(PROMPT, &policy());
    auth.advance(probe_available());
    auth.advance(Event::Verification(OsOutcome::Rejected(PlatformError)));
    assert_eq!(auth.action(), Action::Finish(Err(Error::Unknown)));
}

#[test]
fn events_out_of_turn_change_nothing() {
    let mut auth = Context::new(()).blocking_authenticate(PROMPT, &policy());
    auth.advance(Event::Fallback(Ok(())));
    auth.advance(verified_with(VerificationResult::Verified));
    assert_eq!(auth.stage(), Stage::Probing);
    auth.advance(probe_available());
    auth.advance(verified_with(VerificationResult::Canceled));
    auth.advance(verified_with(VerificationResult::Verified));
    assert_eq!(auth.stage(), Stage::Finished(Err(Error::UserCanceled)));
}

#[test]
fn availability_decisions() {
    assert_eq!(check_availability(OsOutcome::Completed(Availability::Available)), Ok(true));
    assert_eq!(check_availability(OsOutcome::Completed(Availability::DeviceBusy)), Ok(false));
    assert_eq!(check_availability(OsOutcome::Completed(Availability::Other(42))), Ok(false));
    assert_eq!(check_availability(OsOutcome::Failed(PlatformError)), Err(Error::Unknown));
    assert_eq!(check_availability(OsOutcome::Rejected(PlatformError)), Err(Error::Unknown));
}

#[test]
fn verification_outcomes() {
    assert_eq!(verification_outcome(OsOutcome::Completed(VerificationResult::Verified)), Ok(()));
    assert_eq!(
        verification_outcome(OsOutcome::Completed(VerificationResult::Other(12))),
        Err(Error::Unknown)
    );
    assert_eq!(verification_outcome(OsOutcome::Failed(PlatformError)), Err(Error::Unknown));
    assert_eq!(verification_outcome(OsOutcome::Rejected(PlatformError)), Err(Error::Unknown));
}

#[test]
fn request_carries_the_caption() {
    assert_eq!(request_verification("ok"), Action::RequestVerification(vec![111, 107, 0]));
}

#[test]
fn caption_is_zero_terminated_utf16() {
    assert_eq!(caption(""), vec![0]);
    assert_eq!(caption("ab"), vec![97, 98, 0]);
    assert_eq!(caption("é€"), vec![0x00E9, 0x20AC, 0]);
    assert_eq!(caption("a😀"), vec![97, 0xD83D, 0xDE00, 0]);
    assert_eq!(caption("\u{10FFFF}"), vec![0xDBFF, 0xDFFF, 0]);
    assert_eq!(caption(PROMPT), utf16_zero(PROMPT));
}
