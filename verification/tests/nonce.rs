use blind_tokens::bytes::to_fixed;
use blind_tokens::clock::{now_micros, saturate_micros};
use blind_tokens::nonce::{encode_nonce, NONCE_BYTES};
use blind_tokens::Error;
use std::time::{SystemTime, UNIX_EPOCH};

#[test]
fn nonce_has_eight_bytes() {
    assert_eq!(NONCE_BYTES, 8);
    assert_eq!(encode_nonce(0).len(), NONCE_BYTES);
}

#[test]
fn nonce_is_big_endian() {
    assert_eq!(encode_nonce(0), [0, 0, 0, 0, 0, 0, 0, 0]);
    assert_eq!(encode_nonce(1), [0, 0, 0, 0, 0, 0, 0, 1]);
    assert_eq!(encode_nonce(258), [0, 0, 0, 0, 0, 0, 1, 2]);
    assert_eq!(encode_nonce(0x0102_0304_0506_0708), [1, 2, 3, 4, 5, 6, 7, 8]);
    assert_eq!(encode_nonce(0x8000_0000_0000_0000), [0x80, 0, 0, 0, 0, 0, 0, 0]);
    assert_eq!(encode_nonce(u64::MAX), [0xff; 8]);
}

#[test]
fn nonce_of_a_known_instant() {
    // 2021-04-15T19:19:12.043184Z
    assert_eq!(
        encode_nonce(1_618_514_352_043_184),
        [0x00, 0x05, 0xc0, 0x07, 0xbd, 0x04, 0x74, 0xb0]
    );
}

#[test]
fn nonce_agrees_with_the_standard_encoding() {
    let samples = [0u64, 7, 255, 256, 65_535, 65_536, 1 << 40, (1 << 56) - 1, u64::MAX - 1];
    for sample in samples.iter() {
        assert_eq!(encode_nonce(*sample), sample.to_be_bytes());
        assert_eq!(u64::from_be_bytes(encode_nonce(*sample)), *sample);
    }
}

#[test]
fn measurement_is_kept_where_it_fits() {
    assert_eq!(saturate_micros(Some(0)), 0);
    assert_eq!(saturate_micros(Some(5)), 5);
    assert_eq!(saturate_micros(Some(1_618_514_352_043_184)), 1_618_514_352_043_184);
    assert_eq!(saturate_micros(Some(u64::MAX as u128)), u64::MAX);
}

#[test]
fn measurement_saturates_where_it_does_not_fit() {
    assert_eq!(saturate_micros(Some(u64::MAX as u128 + 1)), u64::MAX);
    assert_eq!(saturate_micros(Some(u128::MAX)), u64::MAX);
}

#[test]
fn clock_before_the_epoch_counts_as_the_epoch() {
    assert_eq!(saturate_micros(None), 0);
}

#[test]
fn clock_reading_lies_between_two_readings_of_the_system_clock() {
    let before = SystemTime::now().duration_since(UNIX_EPOCH).unwrap().as_micros();
    let reading = now_micros() as u128;
    let after = SystemTime::now().duration_since(UNIX_EPOCH).unwrap().as_micros();
    assert!(before <= reading);
    assert!(reading <= after);
}

#[test]
fn buffer_of_the_right_length_is_copied() {
    assert_eq!(to_fixed::<4>(&[1, 2, 3, 4]), Some([1, 2, 3, 4]));
    assert_eq!(to_fixed::<1>(&[9]), Some([9]));
    assert_eq!(to_fixed::<0>(&[]), Some([]));
    let long = [7u8; 288];
    assert_eq!(to_fixed::<288>(&long), Some(long));
}

#[test]
fn buffer_of_another_length_is_refused() {
    assert_eq!(to_fixed::<4>(&[1, 2, 3]), None);
    assert_eq!(to_fixed::<4>(&[1, 2, 3, 4, 5]), None);
    assert_eq!(to_fixed::<4>(&[]), None);
    assert_eq!(to_fixed::<0>(&[1]), None);
}

#[test]
fn each_error_has_its_own_message() {
    assert_eq!(Error::Validation.message(), "malformed input");
    assert_eq!(Error::Signing.message(), "token could not be issued");
    assert_eq!(Error::ProofConstruction.message(), "proof could not be constructed");
}
