use erfps2::easing::{rip, sixth_power, sixth_root};

#[test]
fn sixth_roots_are_rounded_down() {
    assert_eq!(sixth_root(0), 0);
    assert_eq!(sixth_root(1), 1);
    assert_eq!(sixth_root(63), 1);
    assert_eq!(sixth_root(64), 2);
    assert_eq!(sixth_root(728), 2);
    assert_eq!(sixth_root(729), 3);
    assert_eq!(sixth_root(1_000_000_000_000_000_000_000_000_000_000), 100_000);
    assert_eq!(sixth_root(64_000_000_000_000_000_000_000_000_000_000), 200_000);
    assert_eq!(sixth_root(2_000_000_000_000_000_000_000_000_000_000), 112_246);
    assert_eq!(sixth_root(100_000_000_000_000_000_000_000_000_000_000_000_000), 2_154_434);
}

#[test]
fn sixth_powers_are_exact() {
    assert_eq!(sixth_power(0), 0);
    assert_eq!(sixth_power(2), 64);
    assert_eq!(sixth_power(10), 1_000_000);
    assert_eq!(sixth_power(2_154_435), 100_000_086_324_703_887_378_212_016_094_603_265_625);
}

#[test]
fn rip_follows_the_curve() {
    assert_eq!(rip(1_000_000, 0, 1_000_000, 16_667), 95_927);
    assert_eq!(rip(1_000_000, 0, 1_400_000, 16_667), 132_082);
    assert_eq!(rip(3_141_593, 0, 1_000_000, 16_667), 250_826);
    assert_eq!(rip(64, 0, 1_000_000, 100_000), 63);
    assert_eq!(rip(100_000_000, 0, 1_000_000, 16_667), 4_553_016);
}

#[test]
fn rip_keeps_the_sign_of_the_distance() {
    assert_eq!(rip(-1_000_000, 0, 1_000_000, 16_667), -95_927);
    assert_eq!(rip(-100_000_000, 0, 1_000_000, 16_667), -4_553_016);
}

#[test]
fn rip_of_zero_is_zero() {
    assert_eq!(rip(0, 0, 1_000_000, 16_667), 0);
    assert_eq!(rip(0, 0, 0, 0), 0);
    assert_eq!(rip(0, 0, u64::MAX, u64::MAX), 0);
}

#[test]
fn rip_without_time_or_rate_stands_still() {
    assert_eq!(rip(1_000_000, 0, 1_000_000, 0), 0);
    assert_eq!(rip(1_000_000, 0, 0, 16_667), 0);
    for distance in [1i64, 2, 3, 63, 65, 2_000_000, 3_141_593, 4_712_389, 99_999_999, 100_000_000] {
        assert_eq!(rip(distance, 0, 0, 16_000), 0);
        assert_eq!(rip(distance, 0, 0, 0), 0);
        assert_eq!(rip(distance, 0, 1_000_000, 0), 0);
        assert_eq!(rip(distance, 0, 0, u64::MAX), 0);
        assert_eq!(rip(distance, 0, u64::MAX, 0), 0);
        assert_eq!(rip(-distance, 0, 0, 16_000), 0);
        assert_eq!(rip(-distance, 0, 1_000_000, 0), 0);
    }
}

#[test]
fn rip_stands_still_while_the_advance_rounds_to_nothing() {
    assert_eq!(rip(3_141_593, 0, 999_999, 1), 0);
    assert_eq!(rip(3_141_593, 0, 1, 999_999), 0);
    assert_eq!(rip(2_000_000, 0, 1_000, 999), 0);
    assert_eq!(rip(2_000_000, 250_000, 0, 16_667), 0);
    assert_eq!(rip(2_000_000, 250_000, 1_000_000, 0), 0);
    assert!(rip(3_141_593, 0, 1_000_000, 1) > 0);
    assert!(rip(3_141_593, 0, 1, 1_000_000) > 0);
}

#[test]
fn rip_never_overshoots() {
    assert_eq!(rip(1_000_000, 0, 1_000_000, 1_000_000), 1_000_000);
    assert_eq!(rip(1_000_000, 0, 1_000_000, 999_999), 1_000_000);
    assert_eq!(rip(1_000_000, 0, u64::MAX, u64::MAX), 1_000_000);
    assert_eq!(rip(-5, 0, 1_000_000, 60_000_000), -5);
    assert_eq!(rip(1, 0, 1_000_000, 16_667), 1);
}

#[test]
fn rip_with_an_offset_is_capped_at_the_distance() {
    assert_eq!(rip(500_000, 250_000, 1_000_000, 50_000), 207_179);
    assert_eq!(rip(500_000, 250_000, 1_000_000, 5_000_000), 500_000);
}

#[test]
fn rip_grows_with_time() {
    let mut last = 0;
    for frame_time in [0u64, 1_000, 8_333, 16_667, 33_333, 100_000, 500_000, 1_000_000, 1_200_000] {
        let step = rip(2_000_000, 0, 1_000_000, frame_time);
        assert!(step >= last);
        assert!(step >= 0 && step <= 2_000_000);
        last = step;
    }
    assert_eq!(last, 2_000_000);
}

#[test]
fn repeated_steps_reach_zero() {
    let mut distance: i64 = 1_000_000;
    let mut frames = 0;
    while distance > 0 {
        let step = rip(distance, 0, 1_000_000, 16_667);
        assert!(step > 0 && step <= distance);
        distance -= step;
        frames += 1;
    }
    assert_eq!(distance, 0);
    assert_eq!(frames, 54);
}
