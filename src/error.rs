use vstd::prelude::*;

verus! {

/// Why an authentication attempt failed, in terms that do not depend on the
/// platform.
#[derive(Debug, Clone, Copy, PartialEq, Eq, Structural)]
pub enum Error {
    /// No usable verifier: the device is absent, not set up for this user,
    /// or disabled by administrative policy.
    Unavailable,
    /// The verifier is occupied by another request.
    Busy,
    /// Too many failed attempts: the platform gave up retrying.
    Exhausted,
    /// The user dismissed the prompt.
    UserCanceled,
    /// An outcome with no portable meaning, or a failed platform call.
    Unknown,
}

/// A platform call that could not be made or whose result could not be
/// delivered. It carries no detail: every such failure reads as
/// `Error::Unknown`.
#[derive(Debug, Clone, Copy, PartialEq, Eq, Structural)]
pub struct PlatformError;

impl From<PlatformError> for Error {
    fn from(_value: PlatformError) -> (r: Error)
        ensures
            r == Error::Unknown,
    {
        Error::Unknown
    }
}

impl vstd::std_specs::convert::FromSpecImpl<PlatformError> for Error {
    open spec fn obeys_from_spec() -> bool {
        true
    }

    open spec fn from_spec(v: PlatformError) -> Error {
        Error::Unknown
    }
}

} // verus!
