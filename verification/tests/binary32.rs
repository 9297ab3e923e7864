use wgpu_raycaster::binary32::{abs, less, INFINITY, SIGN, ZERO};

fn samples() -> Vec<f32> {
    vec![
        0.0,
        -0.0,
        f32::from_bits(1),
        -f32::from_bits(1),
        f32::from_bits(0x007f_ffff),
        f32::MIN_POSITIVE,
        -f32::MIN_POSITIVE,
        1.0e-6,
        0.05,
        0.12,
        0.13,
        -0.12,
        0.5,
        1.0,
        -1.0,
        1.54,
        -1.54,
        2.0,
        1000.0,
        f32::MAX,
        f32::MIN,
        f32::INFINITY,
        f32::NEG_INFINITY,
        f32::NAN,
        -f32::NAN,
        f32::from_bits(0x7f80_0001),
        f32::from_bits(0xffff_ffff),
    ]
}

/// A fixed walk through the 32-bit words.
fn walk(steps: usize) -> Vec<u32> {
    let mut words = Vec::with_capacity(steps);
    let mut state: u32 = 0x2545_f491;
    for _ in 0..steps {
        state = state.wrapping_mul(1_664_525).wrapping_add(1_013_904_223);
        words.push(state);
    }
    words
}

#[test]
fn constants_are_the_words_of_their_numbers() {
    assert_eq!(ZERO, 0.0f32.to_bits());
    assert_eq!(SIGN, (-0.0f32).to_bits());
    assert_eq!(INFINITY, f32::INFINITY.to_bits());
}

#[test]
fn less_orders_the_samples_as_numbers() {
    for a in samples() {
        for b in samples() {
            assert_eq!(less(a.to_bits(), b.to_bits()), a < b, "{:?} < {:?}", a, b);
        }
    }
}

#[test]
fn less_orders_a_walk_of_words_as_numbers() {
    let words = walk(40_000);
    for pair in words.chunks(2) {
        let (a, b) = (pair[0], pair[1]);
        assert_eq!(less(a, b), f32::from_bits(a) < f32::from_bits(b), "{:#x} < {:#x}", a, b);
        assert_eq!(less(a, a), false);
    }
}

#[test]
fn less_sees_neighbours() {
    for w in walk(5_000) {
        let m = w & 0x7fff_ffff;
        if m < INFINITY {
            assert!(less(m, m + 1) || m + 1 > INFINITY);
            assert!(!less(m + 1, m));
            assert_eq!(less(m, m + 1), f32::from_bits(m) < f32::from_bits(m + 1));
        }
    }
}

#[test]
fn zeros_are_equal() {
    assert!(!less(ZERO, SIGN));
    assert!(!less(SIGN, ZERO));
}

#[test]
fn nothing_is_less_than_a_nan_nor_a_nan_less_than_anything() {
    let nan = f32::NAN.to_bits();
    for a in samples() {
        assert!(!less(a.to_bits(), nan));
        assert!(!less(nan, a.to_bits()));
    }
}

#[test]
fn abs_clears_the_sign() {
    for a in samples() {
        assert_eq!(abs(a.to_bits()), a.abs().to_bits());
    }
    for w in walk(10_000) {
        assert_eq!(abs(w), f32::from_bits(w).abs().to_bits());
    }
}
