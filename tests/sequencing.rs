use beat_synth::config::ConfigError;
use beat_synth::sequencer::{fit_to_length, generate_loop, validate_composition};

fn ramp(n: usize) -> Vec<f32> {
    (0..n).map(|i| (i % 97) as f32 / 100.0 + 0.01).collect()
}

#[test]
fn shrinking_then_growing_pads_with_exact_zeros() {
    let before = ramp(50);
    let mut v = before.clone();
    fit_to_length(&mut v, 20, 0.0f32);
    assert_eq!(v, before[..20].to_vec());
    fit_to_length(&mut v, 35, 0.0f32);
    assert_eq!(v.len(), 35);
    assert_eq!(v[..20], before[..20]);
    assert!(v[20..].iter().all(|x| *x == 0.0));
}

#[test]
fn fitting_to_the_same_length_keeps_the_buffer() {
    let before = ramp(12);
    let mut v = before.clone();
    fit_to_length(&mut v, 12, 0.0f32);
    assert_eq!(v, before);
    let mut e: Vec<f32> = Vec::new();
    fit_to_length(&mut e, 3, 0.0f32);
    assert_eq!(e, vec![0.0, 0.0, 0.0]);
}

#[test]
fn loop_at_120_bpm_alternating() {
    let mut voice = ramp(30000);
    let before = voice.clone();
    let order: Vec<u8> = vec![1, 0, 1, 0];
    let beat = generate_loop(&order, &mut voice, 120, 0.0f32).unwrap();
    assert_eq!(voice.len(), 22050);
    assert_eq!(voice, before[..22050].to_vec());
    assert_eq!(beat.len(), 88200);
    assert_eq!(beat[0..22050], voice[..]);
    assert!(beat[22050..44100].iter().all(|x| *x == 0.0));
    assert_eq!(beat[44100..66150], voice[..]);
    assert!(beat[66150..88200].iter().all(|x| *x == 0.0));
}

#[test]
fn loop_at_60_bpm_all_hits() {
    let mut voice = ramp(1000);
    let order: Vec<u8> = vec![1, 1, 1, 1];
    let beat = generate_loop(&order, &mut voice, 60, 0.0f32).unwrap();
    assert_eq!(voice.len(), 44100);
    assert!(voice[1000..].iter().all(|x| *x == 0.0));
    assert_eq!(beat.len(), 176400);
    for k in 0..4 {
        assert_eq!(beat[k * 44100..(k + 1) * 44100], voice[..]);
    }
}

#[test]
fn loop_length_is_steps_times_slot() {
    for (bpm, steps) in [(90u32, 3usize), (128, 8), (7, 2), (200, 0)] {
        let mut voice = ramp(10);
        let order: Vec<u8> = (0..steps).map(|i| (i % 2) as u8).collect();
        let beat = generate_loop(&order, &mut voice, bpm, 0.0f32).unwrap();
        let slot = 2646000 / bpm as usize;
        assert_eq!(voice.len(), slot);
        assert_eq!(beat.len(), steps * slot);
    }
}

#[test]
fn loop_refuses_zero_tempo() {
    let mut voice = ramp(10);
    let order: Vec<u8> = vec![1, 0];
    assert_eq!(generate_loop(&order, &mut voice, 0, 0.0f32), Err(ConfigError::ZeroTempo));
    assert_eq!(voice, ramp(10));
}

#[test]
fn loop_refuses_unknown_steps() {
    let mut voice = ramp(10);
    let order: Vec<u8> = vec![1, 0, 2, 1, 5];
    assert_eq!(
        generate_loop(&order, &mut voice, 120, 0.0f32),
        Err(ConfigError::InvalidStep { position: 2 })
    );
    assert_eq!(voice, ramp(10));
}

#[test]
fn composition_checks() {
    let even = vec![vec![1u8, 1, 1, 1], vec![1, 0, 1, 0], vec![1, 1, 1, 1]];
    assert_eq!(validate_composition(&even, 120), Ok(()));
    assert_eq!(validate_composition(&even, 0), Err(ConfigError::ZeroTempo));
    let uneven = vec![vec![1u8, 1, 1, 1], vec![1, 0, 1], vec![1, 1]];
    assert_eq!(
        validate_composition(&uneven, 120),
        Err(ConfigError::PatternLengthMismatch { voice: 1 })
    );
    assert_eq!(validate_composition(&uneven, 0), Err(ConfigError::ZeroTempo));
    let none: Vec<Vec<u8>> = Vec::new();
    assert_eq!(validate_composition(&none, 120), Ok(()));
}
