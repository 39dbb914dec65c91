use risto::song::duration_secs;
use risto::IdentifyError;

#[test]
fn fifteen_seconds_of_stereo() {
    assert_eq!(duration_secs(1_323_000, 2, 44_100), Ok(15));
}

#[test]
fn duration_is_rounded_down() {
    assert_eq!(duration_secs(1_323_000 + 88_199, 2, 44_100), Ok(15));
    assert_eq!(duration_secs(1_323_000 + 88_200, 2, 44_100), Ok(16));
    assert_eq!(duration_secs(88_199, 2, 44_100), Ok(0));
    assert_eq!(duration_secs(0, 1, 8_000), Ok(0));
}

#[test]
fn odd_sample_count_drops_the_half_frame() {
    assert_eq!(duration_secs(7, 2, 1), Ok(3));
    assert_eq!(duration_secs(u64::MAX, 1, 1), Ok(u64::MAX));
}

#[test]
fn zero_channels_is_an_invalid_format() {
    assert_eq!(duration_secs(1_323_000, 0, 44_100), Err(IdentifyError::InvalidAudioFormat));
}

#[test]
fn zero_sample_rate_is_an_invalid_format() {
    assert_eq!(duration_secs(1_323_000, 2, 0), Err(IdentifyError::InvalidAudioFormat));
    assert_eq!(duration_secs(0, 0, 0), Err(IdentifyError::InvalidAudioFormat));
}
