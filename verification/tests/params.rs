use ambient_core::params::{AudioParams, SharedAudioParams};

#[test]
fn test_mapping_from_neutral_state() {
    let p = AudioParams::from_world_state(500_000, 500_000, 500_000, 500_000, 500_000, 0);
    assert_eq!(p.master_gain, 100_000);
    assert_eq!(p.base_freq_hz, 160_000_000);
    assert_eq!(p.detune_ratio, 1_005_000);
    assert_eq!(p.brightness, 750_000);
    assert_eq!(p.motion, 250_000);
    assert_eq!(p.texture, 150_000);
    assert_eq!(p.sparkle_impulse, 0);
}

#[test]
fn test_mapping_clamps_extremes() {
    let p = AudioParams::from_world_state(1_000_000, 1_000_000, 1_000_000, 1_000_000, 1_000_000, 2_000_000);
    assert_eq!(p.master_gain, 200_000);
    assert_eq!(p.base_freq_hz, 240_000_000);
    assert_eq!(p.detune_ratio, 1_010_000);
    assert_eq!(p.brightness, 500_000);
    assert_eq!(p.motion, 500_000);
    assert_eq!(p.texture, 300_000);
    // The sparkle impulse passes through unclamped.
    assert_eq!(p.sparkle_impulse, 2_000_000);

    let floor = AudioParams::from_world_state(0, 0, 0, 0, 0, 0);
    assert_eq!(floor.master_gain, 0);
    assert_eq!(floor.base_freq_hz, 80_000_000);
    assert_eq!(floor.detune_ratio, 1_000_000);
    assert_eq!(floor.brightness, 1_000_000);
    assert_eq!(floor.motion, 0);
    assert_eq!(floor.texture, 0);
}

#[test]
fn test_mapping_is_pure() {
    let a = AudioParams::from_world_state(123_456, 234_567, 345_678, 456_789, 567_890, 42);
    let b = AudioParams::from_world_state(123_456, 234_567, 345_678, 456_789, 567_890, 42);
    assert_eq!(a, b);
}

#[test]
fn test_default_params() {
    let p = AudioParams::default();
    assert_eq!(p.master_gain, 100_000);
    assert_eq!(p.base_freq_hz, 440_000_000);
    assert_eq!(p.detune_ratio, 1_000_000);
    assert_eq!(p.brightness, 500_000);
    assert_eq!(p.motion, 0);
    assert_eq!(p.texture, 0);
    assert_eq!(p.sparkle_impulse, 0);
}

#[test]
fn test_shared_params_round_trip() {
    let shared = SharedAudioParams::new(AudioParams::default());
    assert_eq!(shared.get(), AudioParams::default());

    let published = AudioParams::from_world_state(1, 2, 3, 4, 5, 6);
    shared.set(published);
    assert_eq!(shared.get(), published);
}

#[test]
fn test_shared_params_last_write_wins() {
    let shared = SharedAudioParams::new(AudioParams::default());
    let first = AudioParams::from_world_state(10, 20, 30, 40, 50, 60);
    let second = AudioParams::from_world_state(700_000, 800_000, 900_000, 650_000, 550_000, 0);
    shared.set(first);
    shared.set(second);
    assert_eq!(shared.get(), second);
}
