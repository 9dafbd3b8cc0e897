//! The failures an operation can report.
//!
//! A verification that does not match is not among them: it is an ordinary
//! outcome. Input errors are the caller's to fix; system errors are not.

use vstd::prelude::*;

verus! {

/// Makes `std::io::Error` known as an opaque type: the failure of a read or
/// of opening the random number generator, which is then mapped to an error
/// of this module.
#[verifier::external_type_specification]
#[verifier::external_body]
pub struct ExIoError(std::io::Error);

/// The request itself cannot be served, whatever the state of the system.
#[derive(Clone, Copy, Debug, PartialEq, Eq, Structural)]
pub enum InputError {
    /// No version tag could be read, or it names no registered parameter set.
    UnsupportedVersion,
    /// The body ends before the salt and hash that its version calls for.
    TruncatedBody,
    /// The key is longer than [`crate::engine::MAX_KEY_LEN`] bytes.
    KeyTooLong,
    /// The secret or the associated data is longer than
    /// [`crate::engine::MAX_INPUT_LEN`] bytes.
    InputTooLong,
}

/// The request was in order and the service could not carry it out.
#[derive(Clone, Copy, Debug, PartialEq, Eq, Structural)]
pub enum SystemError {
    /// The operating system's source of randomness could not be opened.
    EntropyUnavailable,
    /// The parameter set, or the length of the salt at hand, is outside what
    /// the Argon2 implementation computes.
    ComputeFailure,
}

/// Either kind of failure, kept apart.
#[derive(Clone, Copy, Debug, PartialEq, Eq, Structural)]
pub enum HashError {
    Input(InputError),
    System(SystemError),
}

impl HashError {
    /// Whether the failure is the caller's to fix.
    pub open spec fn spec_is_input(&self) -> bool {
        self is Input
    }

    /// Whether the failure is the caller's to fix.
    #[verifier::when_used_as_spec(spec_is_input)]
    pub fn is_input(&self) -> (b: bool)
        ensures
            b == self.spec_is_input(),
    {
        match self {
            HashError::Input(_) => true,
            HashError::System(_) => false,
        }
    }

    /// A description fit for the caller: it names the fault and nothing of
    /// the secret, the key or the state of the service.
    pub fn message(&self) -> (text: &'static str)
        ensures
            text@ == (match *self {
                HashError::Input(InputError::UnsupportedVersion) => "unsupported version"@,
                HashError::Input(InputError::TruncatedBody) => "failed to fill whole buffer"@,
                HashError::Input(InputError::KeyTooLong) => "X-Key header value too long"@,
                HashError::Input(InputError::InputTooLong) => "input too long"@,
                HashError::System(SystemError::EntropyUnavailable) => "entropy source unavailable"@,
                HashError::System(SystemError::ComputeFailure) => "hash computation failed"@,
            }),
    {
        match self {
            HashError::Input(InputError::UnsupportedVersion) => "unsupported version",
            HashError::Input(InputError::TruncatedBody) => "failed to fill whole buffer",
            HashError::Input(InputError::KeyTooLong) => "X-Key header value too long",
            HashError::Input(InputError::InputTooLong) => "input too long",
            HashError::System(SystemError::EntropyUnavailable) => "entropy source unavailable",
            HashError::System(SystemError::ComputeFailure) => "hash computation failed",
        }
    }
}

} // verus!
