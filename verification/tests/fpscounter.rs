use wgpu_raycaster::fpscounter::{decimal_string, FPSCounter, WINDOW};

#[test]
fn a_new_counter_knows_nothing() {
    let c = FPSCounter::new();
    assert_eq!(c.print(), "?");
}

#[test]
fn one_frame_is_not_enough_to_tell() {
    let mut c = FPSCounter::new();
    assert_eq!(c.tick_at(5), 1);
    assert_eq!(c.print(), "?");
}

#[test]
fn two_frames_are_counted() {
    let mut c = FPSCounter::new();
    assert_eq!(c.tick_at(5), 1);
    assert_eq!(c.tick_at(6), 2);
    assert_eq!(c.print(), "2");
}

#[test]
fn frames_older_than_a_second_are_dropped() {
    let mut c = FPSCounter::new();
    assert_eq!(c.tick_at(0), 1);
    assert_eq!(c.tick_at(400_000_000), 2);
    assert_eq!(c.tick_at(800_000_000), 3);
    assert_eq!(c.tick_at(1_200_000_000), 3);
    assert_eq!(c.tick_at(1_900_000_000), 2);
    assert_eq!(c.tick_at(5_000_000_000), 1);
    assert_eq!(c.print(), "?");
}

#[test]
fn a_frame_exactly_a_second_old_is_kept() {
    let mut c = FPSCounter::new();
    assert_eq!(c.tick_at(7), 1);
    assert_eq!(c.tick_at(7 + WINDOW), 2);
    assert_eq!(c.tick_at(8 + WINDOW), 2);
}

#[test]
fn nothing_is_stale_in_the_first_second() {
    let mut c = FPSCounter::new();
    for i in 0..100u128 {
        assert_eq!(c.tick_at(i * 1_000_000), (i + 1) as usize);
    }
    assert_eq!(c.print(), "100");
}

#[test]
fn a_steady_sixty_frames_per_second() {
    let mut c = FPSCounter::new();
    let mut count = 0;
    for i in 0..600u128 {
        count = c.tick_at(i * WINDOW / 60);
    }
    assert_eq!(count, 61);
    assert_eq!(c.print(), "61");
}

#[test]
fn only_the_stale_front_is_dropped() {
    let mut c = FPSCounter::new();
    assert_eq!(c.tick_at(3_000_000_000), 1);
    assert_eq!(c.tick_at(0), 2);
    assert_eq!(c.tick_at(3_500_000_000), 3);
    assert_eq!(c.tick_at(4_100_000_000), 2);
}

#[test]
fn late_readings_do_not_overflow() {
    let mut c = FPSCounter::new();
    assert_eq!(c.tick_at(u128::MAX - 1), 1);
    assert_eq!(c.tick_at(u128::MAX), 2);
    assert_eq!(c.tick_at(0), 3);
}

#[test]
fn ticking_by_the_clock_counts_frames() {
    let mut c = FPSCounter::new();
    assert_eq!(c.tick(), 1);
    assert_eq!(c.tick(), 2);
    assert_eq!(c.tick(), 3);
    assert_eq!(c.print(), "3");
}

#[test]
fn numerals_are_decimal() {
    assert_eq!(decimal_string(0), "0");
    assert_eq!(decimal_string(7), "7");
    assert_eq!(decimal_string(10), "10");
    assert_eq!(decimal_string(61), "61");
    assert_eq!(decimal_string(1_234_567_890), "1234567890");
    assert_eq!(decimal_string(usize::MAX), format!("{}", usize::MAX));
    for n in 0..2_000usize {
        assert_eq!(decimal_string(n), format!("{}", n));
    }
}
