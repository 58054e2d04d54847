use ambient_core::layers::{DroneLayer, Layer, SparkleLayer, TextureLayer};
use ambient_core::mixer::{interleave, mix_sample, sample_to_i16, sample_to_u16, LayerStack};
use ambient_core::params::SharedAudioParams;
use ambient_core::params::AudioParams;

fn loud_params() -> AudioParams {
    AudioParams::from_world_state(900_000, 800_000, 700_000, 1_000_000, 400_000, 1_000_000)
}

#[test]
fn test_drone_output_bounded() {
    let mut drone = DroneLayer::new(48_000);
    let params = loud_params();
    for _ in 0..10_000 {
        let s = drone.process(&params);
        assert!(-1_000_000 <= s && s <= 1_000_000);
    }
}

#[test]
fn test_drone_smooths_toward_bundle() {
    let mut drone = DroneLayer::new(48_000);
    let params = loud_params();
    for _ in 0..5_000 {
        drone.process(&params);
    }
    // The frequency copy has chased the bundle's 80 + 0.4 * 160 =
    // 144 Hz down from its 440 Hz start; smoothing truncates, so it
    // settles just above the target.
    assert!(drone.smoothed_base_freq_hz >= 144_000_000);
    assert!(drone.smoothed_base_freq_hz <= 144_200_000);
}

#[test]
fn test_sparkle_idle_is_silent() {
    let mut sparkle = SparkleLayer::new(48_000);
    let quiet = AudioParams::from_world_state(500_000, 500_000, 500_000, 500_000, 500_000, 0);
    for _ in 0..1_000 {
        assert_eq!(sparkle.process(&quiet), 0);
    }
}

#[test]
fn test_sparkle_fires_and_stays_clipped() {
    let mut sparkle = SparkleLayer::new(48_000);
    let excited = loud_params();
    let mut heard_something = false;
    for _ in 0..20_000 {
        let s = sparkle.process(&excited);
        assert!(-800_000 <= s && s <= 800_000);
        if s != 0 {
            heard_something = true;
        }
    }
    assert!(heard_something);
}

#[test]
fn test_texture_output_bounded() {
    let mut texture = TextureLayer::new(48_000);
    let params = loud_params();
    for _ in 0..20_000 {
        let s = texture.process(&params);
        assert!(-400_000_000 <= s && s <= 400_000_000);
    }
}

#[test]
fn test_mix_silence_is_silent() {
    assert_eq!(mix_sample(0, 0, 0, 1_000_000), 0);
}

#[test]
fn test_mix_soft_knee_value() {
    // Weighted sum: 0.3 + 0.4 + 0.48 = 1.18; above the knee the excess
    // is halved: 0.8 + 0.38 / 2 = 0.99.
    let s = mix_sample(1_000_000, 1_000_000, 800_000, 1_000_000);
    assert_eq!(s, 990_000);
}

#[test]
fn test_mix_hard_clip_engages() {
    let big = 600_000_000_000;
    assert_eq!(mix_sample(big, big, big, 2_000_000), 1_000_000);
    assert_eq!(mix_sample(-big, -big, -big, 2_000_000), -1_000_000);
}

#[test]
fn test_mix_master_gain_caps_at_unity() {
    // A master gain past one unit behaves as one.
    let a = mix_sample(500_000, 400_000, 300_000, 1_000_000);
    let b = mix_sample(500_000, 400_000, 300_000, 5_000_000);
    assert_eq!(a, b);
}

#[test]
fn test_mix_always_in_range() {
    let mut value: i64 = -600_000_000_000;
    while value <= 600_000_000_000 {
        let s = mix_sample(value, -value / 3, value / 7, 900_000);
        assert!(-1_000_000 <= s && s <= 1_000_000);
        value += 37_000_000_000;
    }
}

#[test]
fn test_render_frames_bounded() {
    let mut stack = LayerStack::new(48_000);
    let params = loud_params();
    let mono = stack.render_frames(&params, 4_800);
    assert_eq!(mono.len(), 4_800);
    for &s in mono.iter() {
        assert!(-1_000_000 <= s && s <= 1_000_000);
    }
}

#[test]
fn test_fill_interleaved_matches_render() {
    let params = loud_params();
    let mut rendering = LayerStack::new(48_000);
    let expected = interleave(&rendering.render_frames(&params, 6), 2);

    let mut filling = LayerStack::new(48_000);
    let mut buffer: Vec<i64> = vec![7; 12];
    filling.fill_interleaved(&params, 2, &mut buffer);
    assert_eq!(buffer, expected);
}

#[test]
fn test_fill_interleaved_silences_ragged_tail() {
    let params = loud_params();
    let mut stack = LayerStack::new(48_000);
    // Five slots over two channels: two whole frames, one spare slot.
    let mut buffer: Vec<i64> = vec![42; 5];
    stack.fill_interleaved(&params, 2, &mut buffer);
    assert_eq!(buffer.len(), 5);
    assert_eq!(buffer[0], buffer[1]);
    assert_eq!(buffer[2], buffer[3]);
    assert_eq!(buffer[4], 0);
    for &s in buffer.iter() {
        assert!(-1_000_000 <= s && s <= 1_000_000);
    }
}

#[test]
fn test_fill_interleaved_reuses_buffer() {
    let params = AudioParams::from_world_state(500_000, 500_000, 500_000, 500_000, 500_000, 0);
    let shared = SharedAudioParams::new(params);
    let mut stack = LayerStack::new(48_000);
    let mut buffer: Vec<i64> = vec![0; 256];
    let held = buffer.capacity();
    for _ in 0..50 {
        let latest = shared.get();
        stack.fill_interleaved(&latest, 2, &mut buffer);
    }
    assert_eq!(buffer.len(), 256);
    assert_eq!(buffer.capacity(), held);
}

#[test]
fn test_interleave_fans_out() {
    let mono = vec![1, -2, 3, -4];
    let out = interleave(&mono, 2);
    assert_eq!(out, vec![1, 1, -2, -2, 3, 3, -4, -4]);
}

#[test]
fn test_sample_to_i16_range() {
    assert_eq!(sample_to_i16(1_000_000), 32_767);
    assert_eq!(sample_to_i16(-1_000_000), -32_767);
    assert_eq!(sample_to_i16(0), 0);
    assert_eq!(sample_to_i16(500_000), 16_383);
}

#[test]
fn test_sample_to_u16_range() {
    assert_eq!(sample_to_u16(-1_000_000), 0);
    assert_eq!(sample_to_u16(1_000_000), 65_535);
    assert_eq!(sample_to_u16(0), 32_767);
}
