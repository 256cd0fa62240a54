use fbbuy::{fixed_odds_payout, proportional_payout, Address, BetOption, FIXED_ODDS_MULTIPLIER};

#[test]
fn a_share_is_the_stakes_part_of_the_winning_side_taken_of_the_pool() {
    assert_eq!(proportional_payout(100, 300, 200), Some(150));
    assert_eq!(proportional_payout(100, 300, 100), Some(300));
    assert_eq!(proportional_payout(1, 7, 3), Some(2));
    assert_eq!(proportional_payout(2, 7, 3), Some(4));
    assert_eq!(proportional_payout(0, 7, 3), Some(0));
}

#[test]
fn nothing_is_shared_out_where_nothing_was_staked_on_the_winner() {
    assert_eq!(proportional_payout(0, 300, 0), Some(0));
    assert_eq!(proportional_payout(5, 300, 0), Some(0));
}

#[test]
fn a_share_too_large_to_write_down_is_none() {
    assert_eq!(proportional_payout(u64::MAX, u64::MAX, 1), None);
    assert_eq!(proportional_payout(2, u64::MAX, 1), None);
    assert_eq!(proportional_payout(u64::MAX, u64::MAX, u64::MAX), Some(u64::MAX));
    assert_eq!(proportional_payout(1, u64::MAX, 1), Some(u64::MAX));
}

#[test]
fn fixed_odds_double_a_winning_stake() {
    assert_eq!(FIXED_ODDS_MULTIPLIER, 2);
    assert_eq!(fixed_odds_payout(100, BetOption::Draw, BetOption::Draw), Some(200));
    assert_eq!(fixed_odds_payout(0, BetOption::Draw, BetOption::Draw), Some(0));
    assert_eq!(
        fixed_odds_payout(u64::MAX / 2, BetOption::Draw, BetOption::Draw),
        Some(u64::MAX - 1)
    );
}

#[test]
fn fixed_odds_pay_a_losing_stake_nothing() {
    assert_eq!(fixed_odds_payout(100, BetOption::Draw, BetOption::HomeWin), Some(0));
    assert_eq!(fixed_odds_payout(u64::MAX, BetOption::AwayWin, BetOption::HomeWin), Some(0));
}

#[test]
fn a_doubled_stake_too_large_to_write_down_is_none() {
    assert_eq!(fixed_odds_payout(u64::MAX / 2 + 1, BetOption::Draw, BetOption::Draw), None);
    assert_eq!(fixed_odds_payout(u64::MAX, BetOption::Draw, BetOption::Draw), None);
}

#[test]
fn addresses_are_the_same_when_all_bytes_agree() {
    let a = Address { bytes: [3; 32] };
    let mut b = Address { bytes: [3; 32] };
    assert!(a == b);
    b.bytes[31] = 4;
    assert!(a != b);
    b.bytes[31] = 3;
    b.bytes[0] = 0;
    assert!(a != b);
}
