//! The ways in which generating a code can fail.

use vstd::prelude::*;

verus! {

/// Why no code was produced.
#[derive(Clone, Copy, Debug, PartialEq, Eq, Structural)]
pub enum OtpError {
    /// The secret is not valid unpadded base32.
    InvalidSecretEncoding,
    /// The digest is too short for the four-byte window that its last byte selects.
    InvalidDigest,
    /// The time step is zero.
    InvalidTimeStep,
    /// The time, once the skew is applied, lies before the epoch.
    NegativeEffectiveTime,
    /// The system clock reads a time before the Unix epoch.
    ClockBeforeEpoch,
}

impl OtpError {
    /// The text of the message that reports this error.
    pub open spec fn message_text(self) -> Seq<char> {
        match self {
            OtpError::InvalidSecretEncoding => "secret is not valid unpadded base32"@,
            OtpError::InvalidDigest => "digest is too short for its truncation window"@,
            OtpError::InvalidTimeStep => "time-step must be > 0"@,
            OtpError::NegativeEffectiveTime => "time + skew must be >= 0"@,
            OtpError::ClockBeforeEpoch => "system clock is set before the Unix epoch"@,
        }
    }

    /// The message that reports this error to a user.
    pub fn message(&self) -> (text: String)
        ensures
            text@ == self.message_text(),
    {
        match self {
            OtpError::InvalidSecretEncoding => "secret is not valid unpadded base32".to_owned(),
            OtpError::InvalidDigest => "digest is too short for its truncation window".to_owned(),
            OtpError::InvalidTimeStep => "time-step must be > 0".to_owned(),
            OtpError::NegativeEffectiveTime => "time + skew must be >= 0".to_owned(),
            OtpError::ClockBeforeEpoch => "system clock is set before the Unix epoch".to_owned(),
        }
    }
}

} // verus!
