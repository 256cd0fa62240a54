use fbbuy::{
    settle_and_payout, Address, BetAccount, BetOption, LotteryPool, MyLotteryError,
    SettleAndPayout, Transfer, TransferOutcome,
};

fn key(tag: u8) -> Address {
    Address { bytes: [tag; 32] }
}

fn pool_key() -> Address {
    key(200)
}

fn admin() -> Address {
    key(1)
}

fn bet(bettor: u8, stake: u64, option: BetOption) -> BetAccount {
    BetAccount {
        bettor: key(bettor),
        bet_amount: stake,
        bet_option: option,
        lottery_pool: pool_key(),
        is_settled: false,
    }
}

fn settling(bets: Vec<BetAccount>) -> SettleAndPayout {
    let total: u64 = bets.iter().map(|b: &BetAccount| b.bet_amount).sum();
    SettleAndPayout {
        lottery_pool: LotteryPool {
            match_id: 7,
            end_timestamp: 1_000,
            total_bet_amount: total,
            is_settled: false,
            admin: admin(),
        },
        lottery_pool_key: pool_key(),
        bet_accounts: bets,
        admin: admin(),
    }
}

fn pay(to: u8, amount: u64) -> Transfer {
    Transfer { from: pool_key(), to: key(to), amount }
}

fn three_equal_bets() -> Vec<BetAccount> {
    vec![
        bet(11, 100, BetOption::HomeWin),
        bet(12, 100, BetOption::HomeWin),
        bet(13, 100, BetOption::AwayWin),
    ]
}

#[test]
fn two_winners_of_three_equal_bets_share_the_whole_pool() {
    let mut ctx = settling(three_equal_bets());
    assert_eq!(ctx.lottery_pool.total_bet_amount, 300);
    assert_eq!(ctx.payouts(BetOption::HomeWin), Ok(vec![pay(11, 150), pay(12, 150)]));
    let r = settle_and_payout(&mut ctx, BetOption::HomeWin, TransferOutcome::Completed);
    assert_eq!(r, Ok(vec![pay(11, 150), pay(12, 150)]));
    let paid: u64 = r.unwrap().iter().map(|t: &Transfer| t.amount).sum();
    assert_eq!(paid, 300);
    assert!(ctx.lottery_pool.is_settled);
    assert!(ctx.bet_accounts.iter().all(|b: &BetAccount| b.is_settled));
}

#[test]
fn paying_each_winner_its_own_stake_would_not_share_out_the_pool() {
    // what a winner would get were its stake measured against the whole pool
    let against_whole_pool = fbbuy::proportional_payout(100, 300, 300);
    assert_eq!(against_whole_pool, Some(100));
    assert_ne!(100 + 100, 300);
    // measured against the winning side, the two winners take all of it
    assert_eq!(fbbuy::proportional_payout(100, 300, 200), Some(150));
    assert_eq!(150 + 150, 300);
}

#[test]
fn settling_changes_the_flags_and_nothing_else() {
    let mut ctx = settling(three_equal_bets());
    let before = ctx.clone();
    assert!(settle_and_payout(&mut ctx, BetOption::AwayWin, TransferOutcome::Completed).is_ok());
    assert_eq!(ctx.lottery_pool_key, before.lottery_pool_key);
    assert_eq!(ctx.admin, before.admin);
    assert_eq!(
        ctx.lottery_pool,
        LotteryPool { is_settled: true, ..before.lottery_pool }
    );
    assert_eq!(ctx.bet_accounts.len(), 3);
    for (now, then) in ctx.bet_accounts.iter().zip(before.bet_accounts.iter()) {
        assert_eq!(*now, BetAccount { is_settled: true, ..*then });
    }
}

#[test]
fn a_single_winner_takes_the_whole_pool() {
    let mut ctx = settling(three_equal_bets());
    let r = settle_and_payout(&mut ctx, BetOption::AwayWin, TransferOutcome::Completed);
    assert_eq!(r, Ok(vec![pay(13, 300)]));
}

#[test]
fn shares_are_rounded_down_and_the_rest_stays_in_the_pool() {
    let mut ctx = settling(vec![
        bet(11, 1, BetOption::Draw),
        bet(12, 4, BetOption::HomeWin),
        bet(13, 2, BetOption::Draw),
    ]);
    // 7 in the pool, 3 on the draw: 7 / 3 and 14 / 3, rounded down
    let r = settle_and_payout(&mut ctx, BetOption::Draw, TransferOutcome::Completed);
    assert_eq!(r, Ok(vec![pay(11, 2), pay(13, 4)]));
}

#[test]
fn where_nobody_won_the_pool_is_settled_and_nothing_is_paid() {
    let mut ctx = settling(three_equal_bets());
    assert_eq!(ctx.payouts(BetOption::Draw), Ok(vec![]));
    let r = settle_and_payout(&mut ctx, BetOption::Draw, TransferOutcome::Failed);
    assert_eq!(r, Ok(vec![]));
    assert!(ctx.lottery_pool.is_settled);
    assert!(ctx.bet_accounts.iter().all(|b: &BetAccount| b.is_settled));
}

#[test]
fn a_pool_without_bets_is_settled() {
    let mut ctx = settling(vec![]);
    let r = settle_and_payout(&mut ctx, BetOption::HomeWin, TransferOutcome::Completed);
    assert_eq!(r, Ok(vec![]));
    assert!(ctx.lottery_pool.is_settled);
}

#[test]
fn a_pool_is_settled_once() {
    let mut ctx = settling(three_equal_bets());
    assert!(settle_and_payout(&mut ctx, BetOption::HomeWin, TransferOutcome::Completed).is_ok());
    let settled = ctx.clone();
    assert_eq!(ctx.payouts(BetOption::HomeWin), Err(MyLotteryError::AlreadySettled));
    let again = settle_and_payout(&mut ctx, BetOption::HomeWin, TransferOutcome::Completed);
    assert_eq!(again, Err(MyLotteryError::AlreadySettled));
    assert_eq!(ctx, settled);
    let other = settle_and_payout(&mut ctx, BetOption::AwayWin, TransferOutcome::Completed);
    assert_eq!(other, Err(MyLotteryError::AlreadySettled));
    assert_eq!(ctx, settled);
}

#[test]
fn a_pool_with_a_settled_bet_is_not_settled_as_a_whole() {
    let mut bets = three_equal_bets();
    bets[2].is_settled = true;
    let mut ctx = settling(bets);
    let before = ctx.clone();
    let r = settle_and_payout(&mut ctx, BetOption::HomeWin, TransferOutcome::Completed);
    assert_eq!(r, Err(MyLotteryError::AlreadySettled));
    assert_eq!(ctx, before);
}

#[test]
fn only_the_administrator_settles_a_pool() {
    let mut ctx = settling(three_equal_bets());
    ctx.admin = key(2);
    let before = ctx.clone();
    let r = settle_and_payout(&mut ctx, BetOption::HomeWin, TransferOutcome::Completed);
    assert_eq!(r, Err(MyLotteryError::Unauthorized));
    assert_eq!(ctx, before);
}

#[test]
fn a_bet_of_another_pool_stops_the_settlement() {
    let mut bets = three_equal_bets();
    bets[1].lottery_pool = key(201);
    let mut ctx = settling(bets);
    let before = ctx.clone();
    let r = settle_and_payout(&mut ctx, BetOption::HomeWin, TransferOutcome::Completed);
    assert_eq!(r, Err(MyLotteryError::AccountMismatch));
    assert_eq!(ctx, before);
}

#[test]
fn a_bet_handed_in_twice_stops_the_settlement() {
    let mut ctx = settling(vec![
        bet(11, 100, BetOption::HomeWin),
        bet(11, 100, BetOption::HomeWin),
        bet(13, 100, BetOption::AwayWin),
    ]);
    let before = ctx.clone();
    let r = settle_and_payout(&mut ctx, BetOption::HomeWin, TransferOutcome::Completed);
    assert_eq!(r, Err(MyLotteryError::AccountMismatch));
    assert_eq!(ctx, before);
}

#[test]
fn a_missing_bet_stops_the_settlement() {
    let mut ctx = settling(three_equal_bets());
    ctx.bet_accounts.pop();
    let before = ctx.clone();
    let r = settle_and_payout(&mut ctx, BetOption::HomeWin, TransferOutcome::Completed);
    assert_eq!(r, Err(MyLotteryError::AccountMismatch));
    assert_eq!(ctx, before);
}

#[test]
fn stakes_beyond_the_pools_total_stop_the_settlement() {
    let mut ctx = settling(three_equal_bets());
    ctx.lottery_pool.total_bet_amount = 299;
    let r = settle_and_payout(&mut ctx, BetOption::HomeWin, TransferOutcome::Completed);
    assert_eq!(r, Err(MyLotteryError::AccountMismatch));
    let mut huge = settling(vec![bet(11, 5, BetOption::HomeWin)]);
    huge.bet_accounts.push(bet(12, u64::MAX, BetOption::HomeWin));
    let r = settle_and_payout(&mut huge, BetOption::HomeWin, TransferOutcome::Completed);
    assert_eq!(r, Err(MyLotteryError::AccountMismatch));
}

#[test]
fn payouts_that_fail_leave_the_pool_unsettled() {
    let mut ctx = settling(three_equal_bets());
    let before = ctx.clone();
    let r = settle_and_payout(&mut ctx, BetOption::HomeWin, TransferOutcome::Failed);
    assert_eq!(r, Err(MyLotteryError::TransferFailure));
    assert_eq!(ctx, before);
    assert!(!ctx.lottery_pool.is_settled);
}

#[test]
fn the_payouts_never_pass_the_pools_total() {
    let stakes: [u64; 5] = [3, 5, 7, 11, 13];
    let options = [BetOption::HomeWin, BetOption::Draw, BetOption::AwayWin];
    for winning in options {
        for shift in 0..3usize {
            let bets: Vec<BetAccount> = stakes
                .iter()
                .enumerate()
                .map(|(i, s): (usize, &u64)| bet(10 + i as u8, *s, options[(i + shift) % 3]))
                .collect();
            let mut ctx = settling(bets);
            let r = settle_and_payout(&mut ctx, winning, TransferOutcome::Completed).unwrap();
            let paid: u64 = r.iter().map(|t: &Transfer| t.amount).sum();
            assert!(paid <= 39);
            assert!(39 - paid < 5);
        }
    }
}

#[test]
fn the_largest_pool_is_shared_out_without_overflow() {
    let mut ctx = settling(vec![
        bet(11, u64::MAX - 1, BetOption::HomeWin),
        bet(12, 1, BetOption::Draw),
    ]);
    assert_eq!(ctx.lottery_pool.total_bet_amount, u64::MAX);
    let r = settle_and_payout(&mut ctx, BetOption::HomeWin, TransferOutcome::Completed);
    assert_eq!(r, Ok(vec![pay(11, u64::MAX)]));
}
