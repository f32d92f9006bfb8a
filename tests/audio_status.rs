use cec_rs::audio::{MUTE_STATUS_MASK, VOLUME_MAX, VOLUME_STATUS_UNKNOWN};
use cec_rs::{KnownCecAudioStatus, TryFromCecAudioStatusError};

const VOLUME_MIN: u8 = 0;

#[test]
fn test_zero_volume_with_mute_bit() {
    let raw = VOLUME_MIN;
    let status = KnownCecAudioStatus::try_from_u8(raw | MUTE_STATUS_MASK).unwrap();
    assert_eq!(status.volume(), 0u8);
    assert!(status.is_muted());
    assert!(status.is_muted_or_min_volume());

    let status = KnownCecAudioStatus::new(0u8, false);
    assert_eq!(status.to_u8(), raw);
}

#[test]
fn test_zero_volume_without_mute_bit() {
    let raw = VOLUME_MIN;
    let status = KnownCecAudioStatus::try_from_u8(raw).unwrap();
    assert_eq!(status.volume(), 0u8);
    assert!(!status.is_muted());
    assert!(status.is_muted_or_min_volume());

    let status = KnownCecAudioStatus::new(0u8, false);
    assert_eq!(status.to_u8(), raw);
}

#[test]
fn test_max_volume_with_mute_bit() {
    let raw = VOLUME_MAX;
    let status = KnownCecAudioStatus::try_from_u8(raw | MUTE_STATUS_MASK).unwrap();
    assert_eq!(status.volume(), 100u8);
    assert!(status.is_muted());
    assert!(status.is_muted_or_min_volume());

    let status = KnownCecAudioStatus::new(100u8, false);
    assert_eq!(status.to_u8(), raw);
}

#[test]
fn test_max_volume_without_mute_bit() {
    let raw = VOLUME_MAX;
    let status = KnownCecAudioStatus::try_from_u8(raw).unwrap();
    assert_eq!(status.volume(), 100u8);
    assert!(!status.is_muted());
    assert!(!status.is_muted_or_min_volume());

    let status = KnownCecAudioStatus::new(100u8, false);
    assert_eq!(status.to_u8(), raw);
}

#[test]
fn test_muted_nonmax_volume() {
    let raw = 75u8 | MUTE_STATUS_MASK;
    let status = KnownCecAudioStatus::try_from_u8(raw).unwrap();
    assert_eq!(status.volume(), 75u8);
    assert!(status.is_muted());
    assert!(status.is_muted_or_min_volume());

    let status = KnownCecAudioStatus::new(75u8, true);
    assert_eq!(status.to_u8(), raw);
}

#[test]
fn test_reserved_volume() {
    let raw = VOLUME_MAX + 3;
    let status = KnownCecAudioStatus::try_from_u8(raw);
    assert_eq!(status, Err(TryFromCecAudioStatusError::Reserved(2)));

    let status = KnownCecAudioStatus::new(raw, false);
    assert_eq!(status.to_u8(), 100);
}

#[test]
fn test_unknown_volume() {
    let raw = VOLUME_STATUS_UNKNOWN;
    let status = KnownCecAudioStatus::try_from_u8(raw);
    assert_eq!(status, Err(TryFromCecAudioStatusError::Unknown));

    let status = KnownCecAudioStatus::new(raw, false);
    assert_eq!(status.to_u8(), 100);
}

#[test]
fn muted_volume_above_max_is_clamped() {
    assert_eq!(KnownCecAudioStatus::new(120, true).to_u8(), 228);
}

#[test]
fn reserved_volume_with_mute_bit() {
    assert_eq!(
        KnownCecAudioStatus::try_from_u8(0x80 | 101),
        Err(TryFromCecAudioStatusError::Reserved(0))
    );
    assert_eq!(
        KnownCecAudioStatus::try_from_u8(0x80 | 127),
        Err(TryFromCecAudioStatusError::Unknown)
    );
}

#[test]
fn audio_status_from_native_value() {
    assert_eq!(KnownCecAudioStatus::try_from_native(42).unwrap().volume(), 42);
    assert_eq!(
        KnownCecAudioStatus::try_from_native(-1),
        Err(TryFromCecAudioStatusError::Unknown)
    );
    assert_eq!(
        KnownCecAudioStatus::try_from_native(256),
        Err(TryFromCecAudioStatusError::Unknown)
    );
}
