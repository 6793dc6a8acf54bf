//! The values that a command line hands to the generator.

use vstd::prelude::*;
use vstd::string::StringExecFns;
use vstd::utf8::encode_utf8;
use vstd::utf8::encode_utf8_decode_utf8;

use crate::error::OtpError;
use crate::otp::hotp;
use crate::otp::hotp_code;
use crate::otp::totp;
use crate::otp::totp_code;

verus! {

/// The hash function under the HMAC.
#[derive(Clone, Copy, Debug, PartialEq, Eq, Structural)]
pub enum Algorithm {
    Sha1,
    Sha256,
    Sha512,
}

/// The algorithm that a name stands for, if it names one.
pub open spec fn algorithm_named(name: Seq<char>) -> Option<Algorithm> {
    if name == "sha1"@ {
        Some(Algorithm::Sha1)
    } else if name == "sha256"@ {
        Some(Algorithm::Sha256)
    } else if name == "sha512"@ {
        Some(Algorithm::Sha512)
    } else {
        None
    }
}

/// The message that turns down a name which stands for no algorithm.
pub open spec fn unknown_algorithm_message(name: Seq<char>) -> Seq<char> {
    "Algorithm must be 'sha1', 'sha256' or 'sha512'. Got '"@ + name + "'."@
}

/// Whether two strings hold the same text, decided byte by byte.
fn same_text(a: &str, b: &str) -> (same: bool)
    ensures
        same == (a@ == b@),
{
    let left: &[u8] = a.as_bytes();
    let right: &[u8] = b.as_bytes();
    proof {
        encode_utf8_decode_utf8(a@);
        encode_utf8_decode_utf8(b@);
    }
    if left.len() != right.len() {
        return false;
    }
    let mut i: usize = 0;
    while i < left.len()
        invariant
            i <= left.len(),
            left.len() == right.len(),
            left@ == encode_utf8(a@),
            right@ == encode_utf8(b@),
            forall|k: int| 0 <= k < i ==> left@[k] == right@[k],
        decreases left.len() - i,
    {
        if left[i] != right[i] {
            return false;
        }
        i += 1;
    }
    assert(left@ =~= right@);
    true
}

impl Algorithm {
    /// The length in bytes of the digests of this algorithm.
    pub open spec fn digest_len(self) -> nat {
        match self {
            Algorithm::Sha1 => 20,
            Algorithm::Sha256 => 32,
            Algorithm::Sha512 => 64,
        }
    }

    /// Reads an algorithm from its lower-case name.
    pub fn from_name(s: &str) -> (res: Result<Algorithm, String>)
        ensures
            match res {
                Ok(algorithm) => algorithm_named(s@) == Some(algorithm),
                Err(message) => algorithm_named(s@) is None && message@
                    == unknown_algorithm_message(s@),
            },
    {
        if same_text(s, "sha1") {
            Ok(Algorithm::Sha1)
        } else if same_text(s, "sha256") {
            Ok(Algorithm::Sha256)
        } else if same_text(s, "sha512") {
            Ok(Algorithm::Sha512)
        } else {
            let mut message: String = String::from_str(
                "Algorithm must be 'sha1', 'sha256' or 'sha512'. Got '",
            );
            message.append(s);
            message.append("'.");
            Err(message)
        }
    }
}

impl Default for Algorithm {
    fn default() -> (algorithm: Self)
        ensures
            algorithm == Algorithm::Sha1,
    {
        Algorithm::Sha1
    }
}

impl core::str::FromStr for Algorithm {
    type Err = String;

    fn from_str(s: &str) -> (res: Result<Self, String>)
        ensures
            match res {
                Ok(algorithm) => algorithm_named(s@) == Some(algorithm),
                Err(message) => algorithm_named(s@) is None && message@
                    == unknown_algorithm_message(s@),
            },
    {
        Algorithm::from_name(s)
    }
}

/// What the program is asked to generate.
#[derive(Clone, Debug)]
pub enum Command {
    /// Generate a HOTP code.
    HOTP {
        /// The secret in unpadded base32, in either case.
        secret: String,
        /// The counter of the code.
        counter: u64,
        /// The hash function under the HMAC.
        algorithm: Algorithm,
    },
    /// Generate a TOTP code.
    TOTP {
        /// The secret in unpadded base32, in either case.
        secret: String,
        /// The length of a time step in seconds.
        time_step: u64,
        /// The seconds added to the clock reading before it is divided.
        skew: i64,
        /// The hash function under the HMAC.
        algorithm: Algorithm,
    },
}

/// The arguments of one run of the program.
#[derive(Clone, Debug)]
pub struct Args {
    pub command: Command,
}

/// The upper-case form of a text, as Unicode defines it.
pub uninterp spec fn uppercased(text: Seq<char>) -> Seq<char>;

/// `str::to_uppercase` maps each character to its Unicode upper-case
/// form, which depends on the text alone and is named, not spelled out.
pub assume_specification[ str::to_uppercase ](text: &str) -> (upper: String)
    ensures
        upper@ == uppercased(text@),
;

impl Command {
    /// Generates the code that the command asks for, from its secret in
    /// upper case.
    pub fn run(&self) -> (res: Result<u32, OtpError>)
        ensures
            match *self {
                Command::HOTP { secret, counter, algorithm } => res == hotp_code(
                    uppercased(secret@),
                    counter,
                    algorithm,
                ),
                Command::TOTP { secret, time_step, skew, algorithm } => res == Err::<u32, OtpError>(
                    OtpError::ClockBeforeEpoch,
                ) || exists|now: u64|
                    res == #[trigger] totp_code(
                        uppercased(secret@),
                        time_step,
                        skew,
                        now,
                        algorithm,
                    ),
            },
            res matches Ok(code) ==> code <= 999_999,
    {
        match self {
            Command::HOTP { secret, counter, algorithm } => {
                let upper: String = secret.as_str().to_uppercase();
                hotp(upper.as_str(), *counter, *algorithm)
            },
            Command::TOTP { secret, time_step, skew, algorithm } => {
                let upper: String = secret.as_str().to_uppercase();
                totp(upper.as_str(), *time_step, *skew, *algorithm)
            },
        }
    }
}

} // verus!
