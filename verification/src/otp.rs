//! Code generation: dynamic truncation, HOTP and TOTP.

use vstd::prelude::*;

use vstd::utf8::encode_utf8;

use crate::base32::base32_nopad_decoded;
use crate::base32::decode_base32;
use crate::base32::is_base32_char;
use crate::base32::is_base32_text;
use crate::base32::lemma_text_and_bytes_agree;
use crate::cli::Algorithm;
use crate::clock::since_unix_epoch;
use crate::error::OtpError;
use crate::hmac::hmac_sign;
use crate::hmac::hmac_tag;

verus! {

/// The offset of the four-byte window: the low nibble of the last byte.
pub open spec fn window_offset(digest: Seq<u8>) -> int {
    digest.last() as int % 16
}

/// Whether the window that the digest selects lies inside the digest.
pub open spec fn has_window(digest: Seq<u8>) -> bool {
    digest.len() > 0 && window_offset(digest) + 4 <= digest.len()
}

/// The four bytes of the window, read as a big-endian number.
pub open spec fn window_value(digest: Seq<u8>) -> int {
    let at = window_offset(digest);
    digest[at] as int * 0x100_0000 + digest[at + 1] as int * 0x1_0000 + digest[at + 2] as int
        * 0x100 + digest[at + 3] as int
}

/// The six-digit code of a digest: the window without its sign bit, modulo one million.
pub open spec fn code_of(digest: Seq<u8>) -> int {
    (window_value(digest) % 0x8000_0000) % 1_000_000
}

/// Dynamic truncation as a function of the digest alone.
pub open spec fn truncated(digest: Seq<u8>) -> Result<u32, OtpError> {
    if has_window(digest) {
        Ok(code_of(digest) as u32)
    } else {
        Err(OtpError::InvalidDigest)
    }
}

proof fn lemma_low_nibble(last: u8)
    by (bit_vector)
    ensures
        (last & 0xf) == last % 16,
        (last & 0xf) < 16,
{
}

proof fn lemma_window_bits(b0: u8, b1: u8, b2: u8, b3: u8)
    by (bit_vector)
    ensures
        ((((b0 as u32) << 24) | ((b1 as u32) << 16) | ((b2 as u32) << 8) | (b3 as u32))
            & 0x7fff_ffffu32) == ((b0 as u32) * 0x100_0000 + (b1 as u32) * 0x1_0000 + (b2 as u32)
            * 0x100 + (b3 as u32)) % 0x8000_0000,
{
}

/// Turns an HMAC digest into a six-digit code.
pub fn encode_digest(digest: &[u8]) -> (res: Result<u32, OtpError>)
    ensures
        res == truncated(digest@),
        res matches Ok(code) ==> code <= 999_999,
{
    let len: usize = digest.len();
    if len == 0 {
        return Err(OtpError::InvalidDigest);
    }
    let last: u8 = digest[len - 1];
    proof {
        lemma_low_nibble(last);
    }
    let offset: usize = (last & 0xf) as usize;
    if len < 4 || offset > len - 4 {
        return Err(OtpError::InvalidDigest);
    }
    let b0: u8 = digest[offset];
    let b1: u8 = digest[offset + 1];
    let b2: u8 = digest[offset + 2];
    let b3: u8 = digest[offset + 3];
    proof {
        lemma_window_bits(b0, b1, b2, b3);
    }
    let window: u32 = ((b0 as u32) << 24) | ((b1 as u32) << 16) | ((b2 as u32) << 8) | (b3 as u32);
    Ok((window & 0x7fff_ffff) % 1_000_000)
}

/// Every code has at most six digits: whatever the bytes of the digest,
/// a truncation that succeeds yields a number from 0 to 999999.
pub proof fn lemma_code_has_six_digits(digest: Seq<u8>)
    ensures
        0 <= code_of(digest) <= 999_999,
        truncated(digest) matches Ok(code) ==> code == code_of(digest) && code <= 999_999,
{
}

/// The code is a function of the bytes of the digest: digests that hold
/// the same bytes have the same truncation, however often it is computed.
pub proof fn lemma_same_digest_same_code(first: Seq<u8>, second: Seq<u8>)
    requires
        first =~= second,
    ensures
        truncated(first) == truncated(second),
{
}

/// A digest of 19 bytes or more always holds its window, so the digests
/// of SHA-1, SHA-256 and SHA-512 are never turned down.
pub proof fn lemma_full_digest_has_window(digest: Seq<u8>)
    requires
        digest.len() >= 19,
    ensures
        truncated(digest) is Ok,
{
}

/// The eight bytes of a counter, most significant first.
pub open spec fn big_endian(counter: u64) -> Seq<u8> {
    seq![
        (counter / 0x100_0000_0000_0000) as u8,
        (counter / 0x1_0000_0000_0000 % 0x100) as u8,
        (counter / 0x100_0000_0000 % 0x100) as u8,
        (counter / 0x1_0000_0000 % 0x100) as u8,
        (counter / 0x100_0000 % 0x100) as u8,
        (counter / 0x1_0000 % 0x100) as u8,
        (counter / 0x100 % 0x100) as u8,
        (counter % 0x100) as u8,
    ]
}

proof fn lemma_counter_bytes(counter: u64)
    by (bit_vector)
    ensures
        (counter >> 56) & 0xff == counter / 0x100_0000_0000_0000,
        (counter >> 48) & 0xff == counter / 0x1_0000_0000_0000 % 0x100,
        (counter >> 40) & 0xff == counter / 0x100_0000_0000 % 0x100,
        (counter >> 32) & 0xff == counter / 0x1_0000_0000 % 0x100,
        (counter >> 24) & 0xff == counter / 0x100_0000 % 0x100,
        (counter >> 16) & 0xff == counter / 0x1_0000 % 0x100,
        (counter >> 8) & 0xff == counter / 0x100 % 0x100,
        counter & 0xff == counter % 0x100,
{
}

/// Writes a counter as the eight-byte message that is signed.
pub fn counter_message(counter: u64) -> (message: Vec<u8>)
    ensures
        message@ == big_endian(counter),
{
    proof {
        lemma_counter_bytes(counter);
    }
    let mut message: Vec<u8> = Vec::with_capacity(8);
    message.push(((counter >> 56) & 0xff) as u8);
    message.push(((counter >> 48) & 0xff) as u8);
    message.push(((counter >> 40) & 0xff) as u8);
    message.push(((counter >> 32) & 0xff) as u8);
    message.push(((counter >> 24) & 0xff) as u8);
    message.push(((counter >> 16) & 0xff) as u8);
    message.push(((counter >> 8) & 0xff) as u8);
    message.push((counter & 0xff) as u8);
    message
}

/// Whether a secret can be decoded: it is canonical unpadded base32 and
/// short enough for its length in bits to be counted.
pub open spec fn secret_accepted(secret: Seq<char>) -> bool {
    is_base32_text(secret) && secret.len() <= usize::MAX / 8
}

/// The key that an accepted secret stands for.
pub open spec fn secret_key(secret: Seq<char>) -> Seq<u8> {
    base32_nopad_decoded(encode_utf8(secret))
}

/// The HOTP code as a function of its inputs: the truncated HMAC of the
/// big-endian counter under the decoded secret.
pub open spec fn hotp_code(secret: Seq<char>, counter: u64, algorithm: Algorithm) -> Result<
    u32,
    OtpError,
> {
    if secret_accepted(secret) {
        truncated(hmac_tag(algorithm, secret_key(secret), big_endian(counter)))
    } else {
        Err(OtpError::InvalidSecretEncoding)
    }
}

/// Computes the HMAC-based one-time password of a counter.
///
/// `secret` is the shared key in unpadded base32, in upper case: folding
/// the case is left to the caller.
pub fn hotp(secret: &str, counter: u64, algorithm: Algorithm) -> (res: Result<u32, OtpError>)
    ensures
        res == hotp_code(secret@, counter, algorithm),
        res is Ok <==> secret_accepted(secret@),
        res matches Ok(code) ==> code <= 999_999,
{
    let encoded: &[u8] = secret.as_bytes();
    proof {
        lemma_text_and_bytes_agree(secret@);
    }
    if encoded.len() > usize::MAX / 8 {
        return Err(OtpError::InvalidSecretEncoding);
    }
    let key: Vec<u8> = match decode_base32(encoded) {
        Ok(key) => key,
        Err(_) => {
            return Err(OtpError::InvalidSecretEncoding);
        },
    };
    let message: Vec<u8> = counter_message(counter);
    let digest: Vec<u8> = hmac_sign(algorithm, key.as_slice(), message.as_slice());
    encode_digest(digest.as_slice())
}

/// A secret that holds a character outside the base32 alphabet yields no
/// code, whatever the counter and the algorithm.
pub proof fn lemma_foreign_character_rejected(
    secret: Seq<char>,
    at: int,
    counter: u64,
    algorithm: Algorithm,
)
    requires
        0 <= at < secret.len(),
        !is_base32_char(secret[at]),
    ensures
        hotp_code(secret, counter, algorithm) == Err::<u32, OtpError>(
            OtpError::InvalidSecretEncoding,
        ),
{
}

/// The clock reading as a signed 64-bit number: readings above `i64::MAX`
/// wrap into the negative numbers, as a two's-complement cast does.
pub open spec fn signed_seconds(now: u64) -> int {
    if now <= i64::MAX {
        now as int
    } else {
        now - 0x1_0000_0000_0000_0000
    }
}

/// The time that is divided into steps: the signed clock reading plus the skew.
pub open spec fn effective_time(skew: i64, now: u64) -> int {
    signed_seconds(now) + skew
}

/// The TOTP counter as a function of its inputs: the number of whole time
/// steps that fit into the effective time.
pub open spec fn counter_at(time_step: u64, skew: i64, now: u64) -> Result<u64, OtpError> {
    if time_step == 0 {
        Err(OtpError::InvalidTimeStep)
    } else if effective_time(skew, now) < 0 {
        Err(OtpError::NegativeEffectiveTime)
    } else {
        Ok((effective_time(skew, now) / time_step as int) as u64)
    }
}

/// Derives the counter of the time step that holds `now + skew` seconds.
///
/// The sum is taken without wrapping, so a skew that pushes the time past
/// `i64::MAX` still lands in the step it belongs to.
pub fn derive_counter(time_step: u64, skew: i64, now: u64) -> (res: Result<u64, OtpError>)
    ensures
        res == counter_at(time_step, skew, now),
        time_step == 0 ==> res == Err::<u64, OtpError>(OtpError::InvalidTimeStep),
{
    if time_step == 0 {
        return Err(OtpError::InvalidTimeStep);
    }
    let signed: i128 = if now <= 0x7fff_ffff_ffff_ffff {
        now as i128
    } else {
        now as i128 - 0x1_0000_0000_0000_0000
    };
    let time_with_skew: i128 = signed + skew as i128;
    if time_with_skew < 0 {
        return Err(OtpError::NegativeEffectiveTime);
    }
    Ok(time_with_skew as u64 / time_step)
}

/// The counter is the step that holds the effective time: the time lies
/// at or after the start of that step and before the start of the next.
pub proof fn lemma_counter_brackets_time(time_step: u64, skew: i64, now: u64)
    requires
        counter_at(time_step, skew, now) is Ok,
    ensures
        counter_at(time_step, skew, now)->Ok_0 * time_step <= effective_time(skew, now),
        effective_time(skew, now) < (counter_at(time_step, skew, now)->Ok_0 + 1) * time_step,
{
    let time = effective_time(skew, now);
    let step = time_step as int;
    assert(0 <= time / step <= time && (time / step) * step <= time < (time / step + 1) * step)
        by (nonlinear_arith)
        requires
            time >= 0,
            step > 0,
    ;
}

/// A skew moves the clock: the counter at `now` with a skew is the counter
/// that a clock reading of `now + skew` has without one.
pub proof fn lemma_skew_shifts_clock(time_step: u64, skew: i64, now: u64)
    requires
        0 <= effective_time(skew, now) <= i64::MAX,
    ensures
        counter_at(time_step, skew, now) == counter_at(
            time_step,
            0,
            effective_time(skew, now) as u64,
        ),
{
}

/// The TOTP code at a given clock reading, as a function of its inputs.
pub open spec fn totp_code(
    secret: Seq<char>,
    time_step: u64,
    skew: i64,
    now: u64,
    algorithm: Algorithm,
) -> Result<u32, OtpError> {
    match counter_at(time_step, skew, now) {
        Ok(counter) => hotp_code(secret, counter, algorithm),
        Err(error) => Err(error),
    }
}

/// Computes the time-based one-time password at the clock reading `time`,
/// in whole seconds since the epoch.
pub fn make_totp(secret: &str, time_step: u64, skew: i64, time: u64, algorithm: Algorithm) -> (res:
    Result<u32, OtpError>)
    ensures
        res == totp_code(secret@, time_step, skew, time, algorithm),
        res is Ok <==> counter_at(time_step, skew, time) is Ok && secret_accepted(secret@),
        res matches Ok(code) ==> code <= 999_999,
{
    match derive_counter(time_step, skew, time) {
        Ok(counter) => hotp(secret, counter, algorithm),
        Err(error) => Err(error),
    }
}

/// Computes the time-based one-time password of the present moment.
///
/// The clock is read before anything else, so a clock set before the epoch
/// is reported whatever the other arguments are.
pub fn totp(secret: &str, time_step: u64, skew: i64, algorithm: Algorithm) -> (res: Result<
    u32,
    OtpError,
>)
    ensures
        res == Err::<u32, OtpError>(OtpError::ClockBeforeEpoch) || exists|now: u64|
            res == #[trigger] totp_code(secret@, time_step, skew, now, algorithm),
        res matches Ok(code) ==> code <= 999_999,
{
    let now = std::time::SystemTime::now();
    match since_unix_epoch(&now) {
        Ok(elapsed) => make_totp(secret, time_step, skew, elapsed.as_secs(), algorithm),
        Err(_) => Err(OtpError::ClockBeforeEpoch),
    }
}

} // verus!
