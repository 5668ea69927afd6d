use vstd::prelude::*;
use crate::error::Error;

verus! {

/// What the platform reports when asked whether a verifier can be used now.
#[derive(Debug, Clone, Copy, PartialEq, Eq, Structural)]
pub enum Availability {
    Available,
    DeviceNotPresent,
    NotConfiguredForUser,
    DisabledByPolicy,
    DeviceBusy,
    /// A code this library does not know.
    Other(i32),
}

/// What the platform reports once the user has answered a verification
/// prompt.
#[derive(Debug, Clone, Copy, PartialEq, Eq, Structural)]
pub enum VerificationResult {
    Verified,
    DeviceNotPresent,
    NotConfiguredForUser,
    DisabledByPolicy,
    DeviceBusy,
    RetriesExhausted,
    Canceled,
    /// A code this library does not know.
    Other(i32),
}

/// The availability that the platform's numeric code stands for.
pub open spec fn availability_of_code(code: i32) -> Availability {
    if code == 0 {
        Availability::Available
    } else if code == 1 {
        Availability::DeviceNotPresent
    } else if code == 2 {
        Availability::NotConfiguredForUser
    } else if code == 3 {
        Availability::DisabledByPolicy
    } else if code == 4 {
        Availability::DeviceBusy
    } else {
        Availability::Other(code)
    }
}

/// The verification result that the platform's numeric code stands for.
pub open spec fn verification_of_code(code: i32) -> VerificationResult {
    if code == 0 {
        VerificationResult::Verified
    } else if code == 1 {
        VerificationResult::DeviceNotPresent
    } else if code == 2 {
        VerificationResult::NotConfiguredForUser
    } else if code == 3 {
        VerificationResult::DisabledByPolicy
    } else if code == 4 {
        VerificationResult::DeviceBusy
    } else if code == 5 {
        VerificationResult::RetriesExhausted
    } else if code == 6 {
        VerificationResult::Canceled
    } else {
        VerificationResult::Other(code)
    }
}

/// The portable meaning of a verification result. The three reasons for a
/// missing verifier collapse into `Unavailable`; anything unlisted is
/// `Unknown`.
pub open spec fn normalized(result: VerificationResult) -> Result<(), Error> {
    match result {
        VerificationResult::Verified => Ok(()),
        VerificationResult::DeviceNotPresent => Err(Error::Unavailable),
        VerificationResult::NotConfiguredForUser => Err(Error::Unavailable),
        VerificationResult::DisabledByPolicy => Err(Error::Unavailable),
        VerificationResult::DeviceBusy => Err(Error::Busy),
        VerificationResult::RetriesExhausted => Err(Error::Exhausted),
        VerificationResult::Canceled => Err(Error::UserCanceled),
        VerificationResult::Other(_) => Err(Error::Unknown),
    }
}

impl Availability {
    pub fn from_code(code: i32) -> (r: Availability)
        ensures
            r == availability_of_code(code),
    {
        if code == 0 {
            Availability::Available
        } else if code == 1 {
            Availability::DeviceNotPresent
        } else if code == 2 {
            Availability::NotConfiguredForUser
        } else if code == 3 {
            Availability::DisabledByPolicy
        } else if code == 4 {
            Availability::DeviceBusy
        } else {
            Availability::Other(code)
        }
    }
}

impl VerificationResult {
    pub fn from_code(code: i32) -> (r: VerificationResult)
        ensures
            r == verification_of_code(code),
    {
        if code == 0 {
            VerificationResult::Verified
        } else if code == 1 {
            VerificationResult::DeviceNotPresent
        } else if code == 2 {
            VerificationResult::NotConfiguredForUser
        } else if code == 3 {
            VerificationResult::DisabledByPolicy
        } else if code == 4 {
            VerificationResult::DeviceBusy
        } else if code == 5 {
            VerificationResult::RetriesExhausted
        } else if code == 6 {
            VerificationResult::Canceled
        } else {
            VerificationResult::Other(code)
        }
    }
}

/// Maps a verification result onto the portable vocabulary. Total: every
/// result, known or not, gets an answer.
pub fn convert(result: VerificationResult) -> (r: Result<(), Error>)
    ensures
        r == normalized(result),
{
    match result {
        VerificationResult::Verified => Ok(()),
        VerificationResult::DeviceNotPresent => Err(Error::Unavailable),
        VerificationResult::NotConfiguredForUser => Err(Error::Unavailable),
        VerificationResult::DisabledByPolicy => Err(Error::Unavailable),
        VerificationResult::DeviceBusy => Err(Error::Busy),
        VerificationResult::RetriesExhausted => Err(Error::Exhausted),
        VerificationResult::Canceled => Err(Error::UserCanceled),
        VerificationResult::Other(_) => Err(Error::Unknown),
    }
}

/// Every platform code outside the known table reads as `Unknown`.
pub proof fn lemma_unlisted_codes_unknown(code: i32)
    requires
        !(0 <= code <= 6),
    ensures
        normalized(verification_of_code(code)) == Err::<(), Error>(Error::Unknown),
{
}

} // verus!
