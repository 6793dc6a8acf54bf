use otp::error::OtpError;
use otp::otp::{counter_message, derive_counter, encode_digest};

#[test]
fn truncation_of_the_published_digest() {
    let digest: [u8; 20] = [
        0x1f, 0x86, 0x98, 0x69, 0x0e, 0x02, 0xca, 0x16, 0x61, 0x85, 0x50, 0xef, 0x7f, 0x19, 0xda,
        0x8e, 0x94, 0x5b, 0x55, 0x5a,
    ];
    // The last nibble is 10, the window 0x50ef7f19 = 1357872921.
    assert_eq!(encode_digest(&digest), Ok(872921));
}

#[test]
fn truncation_reads_the_window_big_endian() {
    assert_eq!(encode_digest(&[0x12, 0x34, 0x56, 0x78, 0x00]), Ok(419896));
    assert_eq!(encode_digest(&[0x00, 0x00, 0x00, 0x01, 0x00]), Ok(1));
    assert_eq!(encode_digest(&[0x00, 0x00, 0x01, 0x00, 0x00]), Ok(256));
    assert_eq!(encode_digest(&[0x00, 0x01, 0x00, 0x00, 0x00]), Ok(65536));
    assert_eq!(encode_digest(&[0x01, 0x00, 0x00, 0x00, 0x00]), Ok(777216));
}

#[test]
fn truncation_clears_the_sign_bit() {
    // 0xfffffff0 without its top bit is 2147483632.
    assert_eq!(encode_digest(&[0xff, 0xff, 0xff, 0xf0]), Ok(483632));
    assert_eq!(encode_digest(&[0x80, 0x00, 0x00, 0x00]), Ok(0));
    assert_eq!(encode_digest(&[0x80, 0x00, 0x00, 0x10]), Ok(16));
}

#[test]
fn truncation_takes_the_offset_from_the_low_nibble_only() {
    let mut digest: Vec<u8> = (0u8..20).collect();
    digest[19] = 0xf3;
    // Offset 3: bytes 3, 4, 5, 6.
    assert_eq!(encode_digest(&digest), Ok(0x03040506 % 1_000_000));
    digest[19] = 0x0f;
    // Offset 15: bytes 15, 16, 17, 18; the last byte stays outside.
    assert_eq!(encode_digest(&digest), Ok(0x0f101112 % 1_000_000));
}

#[test]
fn truncation_window_may_end_at_the_last_byte() {
    assert_eq!(encode_digest(&[0, 0, 0, 0]), Ok(0));
    assert_eq!(encode_digest(&[9, 0, 0, 2, 1]), Ok(513));
    assert_eq!(
        encode_digest(&[9, 0, 0, 2, 2]),
        Err(OtpError::InvalidDigest)
    );
}

#[test]
fn truncation_rejects_the_empty_digest() {
    assert_eq!(encode_digest(&[]), Err(OtpError::InvalidDigest));
}

#[test]
fn truncation_rejects_a_window_past_the_end() {
    assert_eq!(encode_digest(&[0x00]), Err(OtpError::InvalidDigest));
    assert_eq!(encode_digest(&[0, 0, 0]), Err(OtpError::InvalidDigest));
    assert_eq!(encode_digest(&[0, 0, 0, 1]), Err(OtpError::InvalidDigest));
    assert_eq!(encode_digest(&[0x0f]), Err(OtpError::InvalidDigest));
    let mut digest = vec![0u8; 18];
    digest[17] = 0x0f;
    assert_eq!(encode_digest(&digest), Err(OtpError::InvalidDigest));
    digest.push(0x0f);
    // Nineteen bytes hold the window at offset 15: 0x00000f0f.
    assert_eq!(encode_digest(&digest), Ok(3855));
}

#[test]
fn truncation_stays_below_a_million() {
    let mut state: u32 = 0x2545_f491;
    for _ in 0..5000 {
        let mut digest = [0u8; 20];
        for byte in digest.iter_mut() {
            state ^= state << 13;
            state ^= state >> 17;
            state ^= state << 5;
            *byte = (state >> 11) as u8;
        }
        let code = encode_digest(&digest).unwrap();
        assert!(code <= 999_999);
        assert_eq!(encode_digest(&digest), Ok(code));
    }
    assert_eq!(encode_digest(&[0xff; 64]), Ok(0x7fff_ffff % 1_000_000));
}

#[test]
fn counter_is_written_most_significant_byte_first() {
    assert_eq!(counter_message(0), vec![0u8; 8]);
    assert_eq!(counter_message(1729), vec![0, 0, 0, 0, 0, 0, 6, 193]);
    assert_eq!(
        counter_message(0x0102030405060708),
        vec![1, 2, 3, 4, 5, 6, 7, 8]
    );
    assert_eq!(counter_message(u64::MAX), vec![0xffu8; 8]);
    assert_eq!(
        counter_message(0xfedc_ba98_7654_3210),
        0xfedc_ba98_7654_3210u64.to_be_bytes().to_vec()
    );
}

#[test]
fn counter_buckets_time_into_steps() {
    assert_eq!(derive_counter(30, 0, 0), Ok(0));
    assert_eq!(derive_counter(30, 0, 35), Ok(1));
    assert_eq!(derive_counter(3600, 0, 7), Ok(0));
}

#[test]
fn counter_changes_at_the_step_edge() {
    assert_eq!(derive_counter(30, 0, 29), Ok(0));
    assert_eq!(derive_counter(30, 0, 30), Ok(1));
    assert_eq!(derive_counter(30, 0, 59), Ok(1));
    assert_eq!(derive_counter(30, 0, 60), Ok(2));
    assert_eq!(derive_counter(1, 0, 1729), Ok(1729));
}

#[test]
fn counter_skew_moves_the_clock() {
    assert_eq!(derive_counter(1, -2, 1731), Ok(1729));
    assert_eq!(derive_counter(30, 25, 35), derive_counter(30, 0, 60));
    assert_eq!(derive_counter(30, -6, 35), derive_counter(30, 0, 29));
    assert_eq!(derive_counter(30, -5, 5), Ok(0));
}

#[test]
fn counter_rejects_a_zero_time_step() {
    for now in [0u64, 5, 1731, i64::MAX as u64, u64::MAX] {
        for skew in [i64::MIN, -10, 0, 10, i64::MAX] {
            assert_eq!(
                derive_counter(0, skew, now),
                Err(OtpError::InvalidTimeStep)
            );
        }
    }
}

#[test]
fn counter_rejects_a_time_before_the_epoch() {
    assert_eq!(
        derive_counter(30, -10, 5),
        Err(OtpError::NegativeEffectiveTime)
    );
    assert_eq!(
        derive_counter(30, -1, 0),
        Err(OtpError::NegativeEffectiveTime)
    );
    assert_eq!(
        derive_counter(1, i64::MIN, i64::MAX as u64),
        Err(OtpError::NegativeEffectiveTime)
    );
}

#[test]
fn counter_reads_the_clock_as_a_signed_number() {
    // A reading above i64::MAX wraps below zero.
    assert_eq!(
        derive_counter(30, 0, 1u64 << 63),
        Err(OtpError::NegativeEffectiveTime)
    );
    assert_eq!(
        derive_counter(30, 0, u64::MAX),
        Err(OtpError::NegativeEffectiveTime)
    );
    assert_eq!(derive_counter(1, 5, u64::MAX), Ok(4));
    assert_eq!(
        derive_counter(1, i64::MIN, u64::MAX),
        Err(OtpError::NegativeEffectiveTime)
    );
}

#[test]
fn counter_does_not_wrap_past_the_largest_time() {
    assert_eq!(
        derive_counter(1, i64::MAX, i64::MAX as u64),
        Ok(18446744073709551614)
    );
    assert_eq!(
        derive_counter(30, i64::MAX, i64::MAX as u64),
        Ok(614891469123651720)
    );
    assert_eq!(derive_counter(1, 1, i64::MAX as u64), Ok(1u64 << 63));
    assert_eq!(derive_counter(u64::MAX, 0, i64::MAX as u64), Ok(0));
}
