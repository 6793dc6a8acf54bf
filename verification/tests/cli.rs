use std::str::FromStr;

use otp::cli::{Algorithm, Args, Command};
use otp::error::OtpError;

#[test]
fn algorithm_names_are_lower_case() {
    assert_eq!(Algorithm::from_str("sha1"), Ok(Algorithm::Sha1));
    assert_eq!(Algorithm::from_str("sha256"), Ok(Algorithm::Sha256));
    assert_eq!(Algorithm::from_str("sha512"), Ok(Algorithm::Sha512));
    assert_eq!(Algorithm::from_name("sha1"), Ok(Algorithm::Sha1));
    assert_eq!(Algorithm::from_name("sha256"), Ok(Algorithm::Sha256));
    assert_eq!(Algorithm::from_name("sha512"), Ok(Algorithm::Sha512));
    assert_eq!("sha512".parse::<Algorithm>(), Ok(Algorithm::Sha512));
}

#[test]
fn algorithm_rejects_other_names() {
    assert_eq!(
        Algorithm::from_str("md5"),
        Err("Algorithm must be 'sha1', 'sha256' or 'sha512'. Got 'md5'.".to_string())
    );
    assert_eq!(
        Algorithm::from_str("SHA1"),
        Err("Algorithm must be 'sha1', 'sha256' or 'sha512'. Got 'SHA1'.".to_string())
    );
    assert_eq!(
        Algorithm::from_name(""),
        Err("Algorithm must be 'sha1', 'sha256' or 'sha512'. Got ''.".to_string())
    );
    for name in ["sha", "sha11", "sha25", "sha2566", " sha1", "sha1 ", "sh\u{e4}1", "sha384"] {
        assert_eq!(
            Algorithm::from_name(name),
            Err(format!(
                "Algorithm must be 'sha1', 'sha256' or 'sha512'. Got '{}'.",
                name
            ))
        );
    }
}

#[test]
fn algorithm_defaults_to_sha1() {
    assert_eq!(Algorithm::default(), Algorithm::Sha1);
}

#[test]
fn error_messages() {
    assert_eq!(
        OtpError::InvalidTimeStep.message(),
        "time-step must be > 0"
    );
    assert_eq!(
        OtpError::NegativeEffectiveTime.message(),
        "time + skew must be >= 0"
    );
    assert_eq!(
        OtpError::InvalidSecretEncoding.message(),
        "secret is not valid unpadded base32"
    );
    assert_eq!(
        OtpError::InvalidDigest.message(),
        "digest is too short for its truncation window"
    );
    assert_eq!(
        OtpError::ClockBeforeEpoch.message(),
        "system clock is set before the Unix epoch"
    );
}

#[test]
fn command_folds_the_secret_to_upper_case() {
    let command = Command::HOTP {
        secret: "allyourbasearebelongtous".to_string(),
        counter: 1729,
        algorithm: Algorithm::Sha1,
    };
    assert_eq!(command.run(), Ok(102510));
    let mixed = Command::HOTP {
        secret: "AllYourBaseAreBelongToUs".to_string(),
        counter: 0,
        algorithm: Algorithm::Sha512,
    };
    assert_eq!(mixed.run(), Ok(281533));
}

#[test]
fn command_reports_a_bad_secret() {
    let command = Command::HOTP {
        secret: "allyourbase1".to_string(),
        counter: 0,
        algorithm: Algorithm::Sha1,
    };
    assert_eq!(command.run(), Err(OtpError::InvalidSecretEncoding));
}

#[test]
fn command_generates_time_based_codes() {
    let args = Args {
        command: Command::TOTP {
            secret: "allyourbasearebelongtous".to_string(),
            time_step: 30,
            skew: 0,
            algorithm: Algorithm::Sha256,
        },
    };
    assert!(args.command.run().unwrap() <= 999_999);
    let zero_step = Command::TOTP {
        secret: "allyourbasearebelongtous".to_string(),
        time_step: 0,
        skew: 0,
        algorithm: Algorithm::Sha256,
    };
    assert_eq!(zero_step.run(), Err(OtpError::InvalidTimeStep));
}
