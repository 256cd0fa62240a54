use fbbuy::{
    settle_bet, Address, BetAccount, BetOption, LotteryPool, MyLotteryError, OracleRecord,
    SettleBet, Transfer, TransferOutcome,
};

const PAST_DEADLINE: i64 = 1_000;

fn key(tag: u8) -> Address {
    Address { bytes: [tag; 32] }
}

fn pool_key() -> Address {
    key(200)
}

fn admin() -> Address {
    key(1)
}

fn closed_pool() -> LotteryPool {
    LotteryPool {
        match_id: 7,
        end_timestamp: PAST_DEADLINE,
        total_bet_amount: 100,
        is_settled: false,
        admin: admin(),
    }
}

fn bet_on(option: BetOption, stake: u64) -> BetAccount {
    BetAccount {
        bettor: key(9),
        bet_amount: stake,
        bet_option: option,
        lottery_pool: pool_key(),
        is_settled: false,
    }
}

fn settling(bet: BetAccount) -> SettleBet {
    SettleBet {
        lottery_pool: closed_pool(),
        lottery_pool_key: pool_key(),
        bet_account: bet,
        admin: admin(),
    }
}

fn oracle_says(outcome: BetOption) -> OracleRecord {
    OracleRecord { match_id: 7, final_outcome: outcome, observed_at: PAST_DEADLINE + 50 }
}

#[test]
fn a_winning_bet_is_paid_twice_its_stake() {
    let mut ctx = settling(bet_on(BetOption::HomeWin, 100));
    let oracle = oracle_says(BetOption::HomeWin);
    let payout = Transfer { from: pool_key(), to: key(9), amount: 200 };
    assert_eq!(ctx.payout(&oracle), Ok(Some(payout)));
    let mut custody: u64 = 500;
    let r = settle_bet(&mut ctx, &oracle, TransferOutcome::Completed);
    assert_eq!(r, Ok(Some(payout)));
    if let Ok(Some(t)) = r {
        custody -= t.amount;
    }
    assert_eq!(custody, 300);
    assert!(ctx.bet_account.is_settled);
    let mut settled = bet_on(BetOption::HomeWin, 100);
    settled.is_settled = true;
    assert_eq!(ctx, settling(settled));
}

#[test]
fn a_losing_bet_is_settled_without_a_transfer() {
    let mut ctx = settling(bet_on(BetOption::AwayWin, 100));
    let oracle = oracle_says(BetOption::HomeWin);
    assert_eq!(ctx.payout(&oracle), Ok(None));
    let r = settle_bet(&mut ctx, &oracle, TransferOutcome::Completed);
    assert_eq!(r, Ok(None));
    assert!(ctx.bet_account.is_settled);
    assert!(!ctx.lottery_pool.is_settled);
}

#[test]
fn a_losing_bet_is_settled_whatever_the_port_answers() {
    let mut ctx = settling(bet_on(BetOption::Draw, 100));
    let r = settle_bet(&mut ctx, &oracle_says(BetOption::HomeWin), TransferOutcome::Failed);
    assert_eq!(r, Ok(None));
    assert!(ctx.bet_account.is_settled);
}

#[test]
fn a_record_observed_before_the_deadline_is_stale() {
    let mut ctx = settling(bet_on(BetOption::HomeWin, 100));
    let before = ctx;
    let oracle = OracleRecord {
        match_id: 7,
        final_outcome: BetOption::HomeWin,
        observed_at: PAST_DEADLINE - 1,
    };
    assert_eq!(ctx.payout(&oracle), Err(MyLotteryError::StaleOracleData));
    let r = settle_bet(&mut ctx, &oracle, TransferOutcome::Completed);
    assert_eq!(r, Err(MyLotteryError::StaleOracleData));
    assert_eq!(ctx, before);
}

#[test]
fn a_record_observed_at_the_deadline_is_fresh() {
    let mut ctx = settling(bet_on(BetOption::HomeWin, 100));
    let oracle = OracleRecord {
        match_id: 7,
        final_outcome: BetOption::HomeWin,
        observed_at: PAST_DEADLINE,
    };
    let r = settle_bet(&mut ctx, &oracle, TransferOutcome::Completed);
    assert_eq!(r, Ok(Some(Transfer { from: pool_key(), to: key(9), amount: 200 })));
}

#[test]
fn a_record_of_another_match_is_refused() {
    let mut ctx = settling(bet_on(BetOption::HomeWin, 100));
    let before = ctx;
    let oracle = OracleRecord {
        match_id: 8,
        final_outcome: BetOption::HomeWin,
        observed_at: PAST_DEADLINE - 1,
    };
    let r = settle_bet(&mut ctx, &oracle, TransferOutcome::Completed);
    assert_eq!(r, Err(MyLotteryError::MismatchedEvent));
    assert_eq!(ctx, before);
}

#[test]
fn a_bet_of_another_pool_is_refused() {
    let mut bet = bet_on(BetOption::HomeWin, 100);
    bet.lottery_pool = key(201);
    let mut ctx = settling(bet);
    let before = ctx;
    let r = settle_bet(&mut ctx, &oracle_says(BetOption::HomeWin), TransferOutcome::Completed);
    assert_eq!(r, Err(MyLotteryError::AccountMismatch));
    assert_eq!(ctx, before);
}

#[test]
fn only_the_administrator_settles_a_bet() {
    let mut ctx = settling(bet_on(BetOption::HomeWin, 100));
    ctx.admin = key(2);
    let before = ctx;
    let r = settle_bet(&mut ctx, &oracle_says(BetOption::HomeWin), TransferOutcome::Completed);
    assert_eq!(r, Err(MyLotteryError::Unauthorized));
    assert_eq!(ctx, before);
}

#[test]
fn a_bet_is_settled_once() {
    let mut ctx = settling(bet_on(BetOption::HomeWin, 100));
    let oracle = oracle_says(BetOption::HomeWin);
    assert!(settle_bet(&mut ctx, &oracle, TransferOutcome::Completed).is_ok());
    let settled = ctx;
    assert_eq!(ctx.payout(&oracle), Err(MyLotteryError::AlreadySettled));
    let again = settle_bet(&mut ctx, &oracle, TransferOutcome::Completed);
    assert_eq!(again, Err(MyLotteryError::AlreadySettled));
    assert_eq!(ctx, settled);
}

#[test]
fn no_bet_of_a_settled_pool_is_settled_again() {
    let mut ctx = settling(bet_on(BetOption::HomeWin, 100));
    ctx.lottery_pool.is_settled = true;
    let before = ctx;
    let r = settle_bet(&mut ctx, &oracle_says(BetOption::HomeWin), TransferOutcome::Completed);
    assert_eq!(r, Err(MyLotteryError::AlreadySettled));
    assert_eq!(ctx, before);
}

#[test]
fn a_payout_that_fails_leaves_the_bet_unsettled() {
    let mut ctx = settling(bet_on(BetOption::HomeWin, 100));
    let before = ctx;
    let r = settle_bet(&mut ctx, &oracle_says(BetOption::HomeWin), TransferOutcome::Failed);
    assert_eq!(r, Err(MyLotteryError::TransferFailure));
    assert_eq!(ctx, before);
    assert!(!ctx.bet_account.is_settled);
}

#[test]
fn a_payout_too_large_to_write_down_is_refused() {
    let mut ctx = settling(bet_on(BetOption::HomeWin, u64::MAX / 2 + 1));
    let before = ctx;
    let r = settle_bet(&mut ctx, &oracle_says(BetOption::HomeWin), TransferOutcome::Completed);
    assert_eq!(r, Err(MyLotteryError::TransferFailure));
    assert_eq!(ctx, before);
}

#[test]
fn the_largest_payout_that_can_be_written_down_is_made() {
    let mut ctx = settling(bet_on(BetOption::HomeWin, u64::MAX / 2));
    let r = settle_bet(&mut ctx, &oracle_says(BetOption::HomeWin), TransferOutcome::Completed);
    assert_eq!(r, Ok(Some(Transfer { from: pool_key(), to: key(9), amount: u64::MAX - 1 })));
}

#[test]
fn bets_of_one_pool_are_settled_in_any_order() {
    let oracle = oracle_says(BetOption::Draw);
    let first = bet_on(BetOption::Draw, 30);
    let mut second = bet_on(BetOption::HomeWin, 40);
    second.bettor = key(10);

    let mut a = settling(first);
    let mut b = settling(second);
    let ra = settle_bet(&mut a, &oracle, TransferOutcome::Completed);
    b.lottery_pool = a.lottery_pool;
    let rb = settle_bet(&mut b, &oracle, TransferOutcome::Completed);

    let mut b2 = settling(second);
    let mut a2 = settling(first);
    let rb2 = settle_bet(&mut b2, &oracle, TransferOutcome::Completed);
    a2.lottery_pool = b2.lottery_pool;
    let ra2 = settle_bet(&mut a2, &oracle, TransferOutcome::Completed);

    assert_eq!((ra, rb), (ra2, rb2));
    assert_eq!((a, b), (a2, b2));
    assert_eq!(ra, Ok(Some(Transfer { from: pool_key(), to: key(9), amount: 60 })));
    assert_eq!(rb, Ok(None));
}
