use idle_miner::address::Address;
use idle_miner::errors::ErrorCode;
use idle_miner::states::{GameConfig, Player};

fn config(base_rate: u64, interval_seconds: i64, milestone_score: u64) -> GameConfig {
    GameConfig {
        admin: Address::new([9u8; 32]),
        entry_fee_lamports: 1_000,
        base_rate,
        interval_seconds,
        milestone_score,
        reward_per_milestone: 1,
        reward_mint: Address::new([7u8; 32]),
        reward_vault: Address::new([8u8; 32]),
        bump: 254,
    }
}

fn player(score: u64, mining_rate: u64, last_update_ts: i64) -> Player {
    Player {
        authority: Address::new([1u8; 32]),
        score,
        mining_rate,
        last_update_ts,
        miners: 1,
        bump: 253,
    }
}

#[test]
fn ten_full_intervals_pay_ten_times_the_rate() {
    let cfg = config(10, 60, 100);
    let mut p = player(0, 10, 0);
    assert_eq!(p.update_score(&cfg, 600), Ok(()));
    assert_eq!(p.score, 100);
    assert_eq!(p.last_update_ts, 600);
    assert_eq!(p.mining_rate, 10);
    assert_eq!(p.miners, 1);
    assert_eq!(p.authority, Address::new([1u8; 32]));
    assert_eq!(p.bump, 253);
}

#[test]
fn a_started_interval_is_not_paid_and_not_lost() {
    let cfg = config(10, 60, 100);
    let mut p = player(5, 10, 1_000);
    assert_eq!(p.update_score(&cfg, 1_000 + 150), Ok(()));
    assert_eq!(p.score, 25);
    assert_eq!(p.last_update_ts, 1_000 + 120);
    assert_eq!(p.update_score(&cfg, 1_000 + 180), Ok(()));
    assert_eq!(p.score, 35);
    assert_eq!(p.last_update_ts, 1_000 + 180);
}

#[test]
fn less_than_one_interval_changes_nothing() {
    let cfg = config(10, 60, 100);
    let mut p = player(5, 10, 1_000);
    let before = p;
    assert_eq!(p.update_score(&cfg, 1_059), Ok(()));
    assert_eq!(p, before);
}

#[test]
fn a_clock_that_stands_still_or_runs_back_changes_nothing() {
    let cfg = config(10, 60, 100);
    let mut p = player(5, 10, 1_000);
    let before = p;
    assert_eq!(p.update_score(&cfg, 1_000), Ok(()));
    assert_eq!(p, before);
    assert_eq!(p.update_score(&cfg, 400), Ok(()));
    assert_eq!(p, before);
    assert_eq!(p.update_score(&cfg, i64::MIN), Ok(()));
    assert_eq!(p, before);
}

#[test]
fn interval_of_zero_switches_accrual_off() {
    let cfg = config(10, 0, 100);
    let mut p = player(5, 10, 0);
    let before = p;
    assert_eq!(p.update_score(&cfg, 1), Ok(()));
    assert_eq!(p, before);
    assert_eq!(p.update_score(&cfg, 1_000_000), Ok(()));
    assert_eq!(p, before);
    assert_eq!(p.update_score(&cfg, i64::MAX), Ok(()));
    assert_eq!(p, before);
}

#[test]
fn negative_interval_switches_accrual_off() {
    let cfg = config(10, -60, 100);
    let mut p = player(5, 10, 0);
    let before = p;
    assert_eq!(p.update_score(&cfg, 6_000), Ok(()));
    assert_eq!(p, before);
}

#[test]
fn second_update_at_the_same_instant_changes_nothing() {
    let cfg = config(3, 7, 100);
    let mut p = player(11, 3, 20);
    assert_eq!(p.update_score(&cfg, 50), Ok(()));
    assert_eq!(p.score, 11 + 4 * 3);
    assert_eq!(p.last_update_ts, 20 + 4 * 7);
    let once = p;
    assert_eq!(p.update_score(&cfg, 50), Ok(()));
    assert_eq!(p, once);
}

#[test]
fn two_updates_equal_one_update_over_the_whole_span() {
    let cfg = config(3, 7, 100);
    let mut split = player(11, 3, 20);
    assert_eq!(split.update_score(&cfg, 33), Ok(()));
    assert_eq!(split.score, 11 + 3);
    assert_eq!(split.last_update_ts, 27);
    assert_eq!(split.update_score(&cfg, 50), Ok(()));

    let mut whole = player(11, 3, 20);
    assert_eq!(whole.update_score(&cfg, 50), Ok(()));
    assert_eq!(split, whole);
    assert_eq!(whole.score, 23);
    assert_eq!(whole.last_update_ts, 48);
}

#[test]
fn many_small_updates_equal_one_large_update() {
    let cfg = config(5, 60, 100);
    let mut stepped = player(0, 5, 0);
    let mut now = 0;
    while now < 3_600 {
        now += 25;
        assert_eq!(stepped.update_score(&cfg, now), Ok(()));
    }
    let mut whole = player(0, 5, 0);
    assert_eq!(whole.update_score(&cfg, now), Ok(()));
    assert_eq!(stepped, whole);
    assert_eq!(whole.score, 5 * 60);
    assert_eq!(whole.last_update_ts, 3_600);
}

#[test]
fn overflowing_product_is_reported_and_changes_nothing() {
    let cfg = config(10, 1, 100);
    let mut p = player(0, u64::MAX / 2 + 1, 0);
    let before = p;
    assert_eq!(p.update_score(&cfg, 2), Err(ErrorCode::MathOverflow));
    assert_eq!(p, before);
}

#[test]
fn overflowing_sum_is_reported_and_changes_nothing() {
    let cfg = config(10, 60, 100);
    let mut p = player(u64::MAX - 19, 10, 0);
    let before = p;
    assert_eq!(p.update_score(&cfg, 120), Err(ErrorCode::MathOverflow));
    assert_eq!(p, before);
    assert_eq!(p.update_score(&cfg, 119), Ok(()));
    assert_eq!(p.score, u64::MAX - 9);
    assert_eq!(p.last_update_ts, 60);
}

#[test]
fn score_may_reach_the_largest_value() {
    let cfg = config(10, 60, 100);
    let mut p = player(u64::MAX - 20, 10, 0);
    assert_eq!(p.update_score(&cfg, 120), Ok(()));
    assert_eq!(p.score, u64::MAX);
    assert_eq!(p.last_update_ts, 120);
}

#[test]
fn elapsed_time_beyond_the_signed_range_is_reported() {
    let cfg = config(10, 60, 100);
    let mut p = player(5, 10, -2);
    let before = p;
    assert_eq!(p.update_score(&cfg, i64::MAX), Err(ErrorCode::MathOverflow));
    assert_eq!(p, before);

    let off = config(10, 0, 100);
    assert_eq!(p.update_score(&off, i64::MAX), Err(ErrorCode::MathOverflow));
    assert_eq!(p, before);
}

#[test]
fn longest_elapsed_time_that_fits_is_paid() {
    let cfg = config(1, i64::MAX, 100);
    let mut p = player(5, 1, 0);
    assert_eq!(p.update_score(&cfg, i64::MAX), Ok(()));
    assert_eq!(p.score, 6);
    assert_eq!(p.last_update_ts, i64::MAX);
}

#[test]
fn timestamps_before_the_epoch_accrue_like_any_other() {
    let cfg = config(2, 10, 100);
    let mut p = player(0, 2, -95);
    assert_eq!(p.update_score(&cfg, -60), Ok(()));
    assert_eq!(p.score, 6);
    assert_eq!(p.last_update_ts, -65);
}

#[test]
fn a_rate_of_zero_earns_nothing_but_consumes_the_time() {
    let cfg = config(0, 60, 100);
    let mut p = player(5, 0, 0);
    assert_eq!(p.update_score(&cfg, 600), Ok(()));
    assert_eq!(p.score, 5);
    assert_eq!(p.last_update_ts, 600);
}

#[test]
fn split_update_can_go_further_than_one_that_overflows() {
    let cfg = config(3, 1, 100);
    let mut whole = player(u64::MAX - 5, 3, 0);
    assert_eq!(whole.update_score(&cfg, 2), Err(ErrorCode::MathOverflow));
    assert_eq!(whole.score, u64::MAX - 5);
    assert_eq!(whole.last_update_ts, 0);

    let mut split = player(u64::MAX - 5, 3, 0);
    assert_eq!(split.update_score(&cfg, 1), Ok(()));
    assert_eq!(split.update_score(&cfg, 2), Err(ErrorCode::MathOverflow));
    assert_eq!(split.score, u64::MAX - 2);
    assert_eq!(split.last_update_ts, 1);
}
