//! Policy negotiation and dispatch for local user verification: a builder
//! that validates the requested factors, the decisions of one
//! authentication attempt, and the mapping of platform outcomes onto a small
//! portable error set.
pub mod dispatch;
pub mod error;
pub mod outcome;
pub mod policy;
pub mod text;

pub use dispatch::{
    check_availability, request_verification, verification_outcome, Action, Authentication,
    Context, Event, Mode, OsOutcome, RawContext, Stage,
};
pub use error::{Error, PlatformError};
pub use outcome::{convert, Availability, VerificationResult};
pub use policy::{BiometricStrength, Factor, Policy, PolicyBuilder};
pub use text::caption;
