use staking_vault::errors::StakeError;
use staking_vault::vesting::unvested;

#[test]
fn half_elapsed_window_locks_half() {
    // 14400 * 8640 / 28800
    assert_eq!(unvested(14_400, 0, 28_800, 8_640), Ok(4_320));
}

#[test]
fn window_start_locks_all() {
    assert_eq!(unvested(100, 100, 28_800, 8_640), Ok(8_640));
    assert_eq!(unvested(0, 0, u32::MAX, u64::MAX), Ok(u64::MAX));
}

#[test]
fn window_end_locks_nothing() {
    assert_eq!(unvested(28_800, 0, 28_800, 8_640), Ok(0));
    assert_eq!(unvested(28_801, 0, 28_800, 8_640), Ok(0));
    assert_eq!(unvested(u32::MAX, 0, 28_800, u64::MAX), Ok(0));
    assert_eq!(unvested(128_800, 100_000, 28_800, 8_640), Ok(0));
}

#[test]
fn last_second_of_the_window() {
    // 1 * 8640 / 28800 rounds down to nothing, 1 * 28800 / 28800 to one
    assert_eq!(unvested(28_799, 0, 28_800, 8_640), Ok(0));
    assert_eq!(unvested(28_799, 0, 28_800, 28_800), Ok(1));
}

#[test]
fn locked_part_rounds_down() {
    // 2 * 10 / 3 = 6.66..
    assert_eq!(unvested(1, 0, 3, 10), Ok(6));
    // 1 * 10 / 3 = 3.33..
    assert_eq!(unvested(2, 0, 3, 10), Ok(3));
}

#[test]
fn locked_part_of_a_large_reward() {
    // (2^32 - 2) * (2^64 - 1) / (2^32 - 1) needs more than 64 bits on the way
    let expected = ((u32::MAX as u128 - 1) * (u64::MAX as u128) / (u32::MAX as u128)) as u64;
    assert_eq!(expected, 18_446_744_069_414_584_318);
    assert_eq!(unvested(1, 0, u32::MAX, u64::MAX), Ok(expected));
}

#[test]
fn time_before_the_window_is_refused() {
    assert_eq!(unvested(99, 100, 28_800, 8_640), Err(StakeError::Underflow));
    assert_eq!(unvested(0, u32::MAX, 1, 0), Err(StakeError::Underflow));
}

#[test]
fn locked_part_never_grows() {
    let mut before = unvested(5, 5, 7, 100).unwrap();
    assert_eq!(before, 100);
    for now in 6..40u32 {
        let locked = unvested(now, 5, 7, 100).unwrap();
        assert!(locked <= before);
        if now >= 12 {
            assert_eq!(locked, 0);
        }
        before = locked;
    }
}
