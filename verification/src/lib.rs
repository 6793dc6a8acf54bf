//! One-time passwords: counter-based (HOTP) and time-based (TOTP) codes
//! derived from a base32 secret, with every rule of the computation stated
//! as a contract and proved.

pub mod base32;
pub mod cli;
pub mod clock;
pub mod error;
pub mod hmac;
pub mod otp;
