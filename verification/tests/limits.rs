use wgpu_raycaster::limits::{
    clamp_pitch, deadzone, exceeds_unit, frame_time, is_degenerate, sign, Orientation, DEADZONE,
    DEFAULT_FRAME_TIME, DEGENERATE, MAX_FRAME_TIME, MAX_PITCH, ONE,
};

fn walk(steps: usize) -> Vec<u32> {
    let mut words = Vec::with_capacity(steps);
    let mut state: u32 = 0x9e37_79b9;
    for _ in 0..steps {
        state = state.wrapping_mul(1_664_525).wrapping_add(1_013_904_223);
        words.push(state);
    }
    words
}

fn deadzone_of(x: f32) -> f32 {
    let dz = 0.12;
    if x.abs() < dz {
        0.0
    } else {
        x
    }
}

fn clamp_of(x: f32) -> f32 {
    let mut pitch = x;
    let max_pitch = 1.54;
    if pitch > max_pitch {
        pitch = max_pitch;
    }
    if pitch < -max_pitch {
        pitch = -max_pitch;
    }
    pitch
}

fn frame_time_of(x: f32) -> f32 {
    let mut dt = x;
    if !dt.is_finite() || dt <= 0.0 {
        dt = 1.0 / 60.0;
    }
    dt.min(0.05)
}

#[test]
fn thresholds_are_the_words_of_their_numbers() {
    assert_eq!(DEADZONE, 0.12f32.to_bits());
    assert_eq!(MAX_PITCH, 1.54f32.to_bits());
    assert_eq!(DEFAULT_FRAME_TIME, (1.0f32 / 60.0f32).to_bits());
    assert_eq!(MAX_FRAME_TIME, 0.05f32.to_bits());
    assert_eq!(ONE, 1.0f32.to_bits());
    assert_eq!(DEGENERATE, 1.0e-6f32.to_bits());
}

#[test]
fn deadzone_drops_what_is_under_the_threshold() {
    assert_eq!(deadzone(0.0f32.to_bits()), 0);
    assert_eq!(deadzone(0.05f32.to_bits()), 0);
    assert_eq!(deadzone((-0.05f32).to_bits()), 0);
    assert_eq!(deadzone(0.119_999f32.to_bits()), 0);
    assert_eq!(deadzone((-0.119_999f32).to_bits()), 0);
    assert_eq!(deadzone((-0.0f32).to_bits()), 0);
    assert_eq!(deadzone(DEADZONE - 1), 0);
}

#[test]
fn deadzone_keeps_the_threshold_itself() {
    assert_eq!(deadzone(0.12f32.to_bits()), 0.12f32.to_bits());
    assert_eq!(deadzone((-0.12f32).to_bits()), (-0.12f32).to_bits());
}

#[test]
fn deadzone_keeps_what_is_over_the_threshold_as_it_is() {
    assert_eq!(deadzone(0.13f32.to_bits()), 0.13f32.to_bits());
    assert_eq!(deadzone((-0.13f32).to_bits()), (-0.13f32).to_bits());
    assert_eq!(deadzone(0.5f32.to_bits()), 0.5f32.to_bits());
    assert_eq!(deadzone(1.0f32.to_bits()), 1.0f32.to_bits());
    assert_ne!(f32::from_bits(deadzone(0.13f32.to_bits())), 0.0);
    assert!(f32::from_bits(deadzone(0.13f32.to_bits())) < f32::from_bits(deadzone(0.14f32.to_bits())));
}

#[test]
fn deadzone_agrees_with_the_numbers() {
    for w in walk(50_000) {
        let x = f32::from_bits(w);
        assert_eq!(deadzone(w), deadzone_of(x).to_bits(), "{:?}", x);
    }
    for i in 0..4_000u32 {
        let w = DEADZONE - 2_000 + i;
        assert_eq!(deadzone(w), deadzone_of(f32::from_bits(w)).to_bits());
        let n = w | 0x8000_0000;
        assert_eq!(deadzone(n), deadzone_of(f32::from_bits(n)).to_bits());
    }
}

#[test]
fn clamp_pitch_holds_the_limit() {
    assert_eq!(clamp_pitch(2.0f32.to_bits()), 1.54f32.to_bits());
    assert_eq!(clamp_pitch((-2.0f32).to_bits()), (-1.54f32).to_bits());
    assert_eq!(clamp_pitch(f32::INFINITY.to_bits()), 1.54f32.to_bits());
    assert_eq!(clamp_pitch(f32::NEG_INFINITY.to_bits()), (-1.54f32).to_bits());
    assert_eq!(clamp_pitch(1.54f32.to_bits()), 1.54f32.to_bits());
    assert_eq!(clamp_pitch((-1.54f32).to_bits()), (-1.54f32).to_bits());
    assert_eq!(clamp_pitch(0.3f32.to_bits()), 0.3f32.to_bits());
    assert_eq!(clamp_pitch((-0.0f32).to_bits()), (-0.0f32).to_bits());
}

#[test]
fn clamp_pitch_agrees_with_the_numbers() {
    for w in walk(50_000) {
        let x = f32::from_bits(w);
        assert_eq!(clamp_pitch(w), clamp_of(x).to_bits(), "{:?}", x);
    }
    for i in 0..4_000u32 {
        let w = MAX_PITCH - 2_000 + i;
        assert_eq!(clamp_pitch(w), clamp_of(f32::from_bits(w)).to_bits());
        let n = w | 0x8000_0000;
        assert_eq!(clamp_pitch(n), clamp_of(f32::from_bits(n)).to_bits());
    }
}

#[test]
fn pitch_never_leaves_the_limit_however_far_it_is_driven() {
    let mut orientation = Orientation::new(0.0f32.to_bits(), 0.0f32.to_bits());
    for tick in 0..10_000 {
        let pitch = f32::from_bits(orientation.pitch()) + 0.8 * 0.05;
        orientation = Orientation::new(orientation.yaw(), pitch.to_bits());
        let held = f32::from_bits(orientation.pitch());
        assert!(held <= 1.54 && held >= -1.54, "tick {}: {}", tick, held);
    }
    assert_eq!(orientation.pitch(), 1.54f32.to_bits());
    for _ in 0..10_000 {
        let pitch = f32::from_bits(orientation.pitch()) - 1.0e6;
        orientation = Orientation::new(orientation.yaw(), pitch.to_bits());
        let held = f32::from_bits(orientation.pitch());
        assert!(held <= 1.54 && held >= -1.54);
    }
    assert_eq!(orientation.pitch(), (-1.54f32).to_bits());
}

#[test]
fn orientation_keeps_its_yaw() {
    let orientation = Orientation::new(7.5f32.to_bits(), 0.25f32.to_bits());
    assert_eq!(orientation.yaw(), 7.5f32.to_bits());
    assert_eq!(orientation.pitch(), 0.25f32.to_bits());
}

#[test]
fn frame_time_takes_the_default_for_what_cannot_be_used() {
    let default = (1.0f32 / 60.0f32).to_bits();
    assert_eq!(frame_time(0.0f32.to_bits()), default);
    assert_eq!(frame_time((-0.0f32).to_bits()), default);
    assert_eq!(frame_time((-0.01f32).to_bits()), default);
    assert_eq!(frame_time(f32::NAN.to_bits()), default);
    assert_eq!(frame_time(f32::INFINITY.to_bits()), default);
    assert_eq!(frame_time(f32::NEG_INFINITY.to_bits()), default);
}

#[test]
fn frame_time_is_bounded_above() {
    assert_eq!(frame_time(0.05f32.to_bits()), 0.05f32.to_bits());
    assert_eq!(frame_time(0.050_001f32.to_bits()), 0.05f32.to_bits());
    assert_eq!(frame_time(3.0f32.to_bits()), 0.05f32.to_bits());
    assert_eq!(frame_time(f32::MAX.to_bits()), 0.05f32.to_bits());
}

#[test]
fn frame_time_keeps_a_usable_time() {
    assert_eq!(frame_time(0.016f32.to_bits()), 0.016f32.to_bits());
    assert_eq!(frame_time(0.001f32.to_bits()), 0.001f32.to_bits());
    assert_eq!(frame_time(1), 1);
}

#[test]
fn frame_time_agrees_with_the_numbers() {
    for w in walk(50_000) {
        let x = f32::from_bits(w);
        let r = frame_time(w);
        assert_eq!(r, frame_time_of(x).to_bits(), "{:?}", x);
        let t = f32::from_bits(r);
        assert!(t > 0.0 && t <= 0.05);
    }
}

#[test]
fn sign_is_one_or_minus_one() {
    assert_eq!(sign(true), (-1.0f32).to_bits());
    assert_eq!(sign(false), 1.0f32.to_bits());
}

#[test]
fn short_vectors_are_degenerate() {
    assert!(is_degenerate(0.0f32.to_bits()));
    assert!(is_degenerate(9.9e-7f32.to_bits()));
    assert!(!is_degenerate(1.0e-6f32.to_bits()));
    assert!(!is_degenerate(1.0f32.to_bits()));
    assert!(!is_degenerate(f32::NAN.to_bits()));
    for w in walk(20_000) {
        assert_eq!(is_degenerate(w), f32::from_bits(w) < 1e-6);
    }
}

#[test]
fn long_movements_exceed_one() {
    assert!(!exceeds_unit(1.0f32.to_bits()));
    assert!(exceeds_unit(1.000_000_1f32.to_bits()));
    assert!(exceeds_unit(2.0f32.to_bits()));
    assert!(!exceeds_unit(0.5f32.to_bits()));
    assert!(!exceeds_unit(f32::NAN.to_bits()));
    for w in walk(20_000) {
        assert_eq!(exceeds_unit(w), f32::from_bits(w) > 1.0);
    }
}
