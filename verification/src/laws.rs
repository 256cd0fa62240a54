//! What holds of the ledger whatever calls are made.

use vstd::prelude::*;
use crate::bet::PlaceBet;
use crate::book::{BetRequest, PoolBook};
use crate::error::MyLotteryError;
use crate::oracle::SettleBet;
use crate::payout::{lemma_share_bounds, lemma_share_rounds_down, lemma_share_rounds_little};
use crate::pool::CreateLotteryPool;
use crate::port::{transferred, Transfer, TransferOutcome};
use crate::settle::{payout_at, payouts_due};
use crate::stakes::{bets_on, lemma_side_within_all, lemma_stake_within_side,
    lemma_staked_by_stakes, lemma_staked_step, staked, staked_on};
use crate::state::{BetOption, OracleRecord};

verus! {

/// A pool that was just opened, with no bet on it, is a consistent book.
pub proof fn lemma_opened_pool_is_consistent(
    ctx: CreateLotteryPool,
    match_id: u64,
    end_timestamp: i64,
    book: PoolBook,
)
    requires
        book.lottery_pool == ctx.opened(match_id, end_timestamp),
        book.bet_accounts.len() == 0,
    ensures
        book.consistent(),
{
}

/// One call of `place_bet` keeps a consistent book consistent: the pool's
/// total stays the sum of the stakes of its bets, and no participant gets a
/// second bet.
pub proof fn lemma_bet_keeps_book_consistent(book: PoolBook, request: BetRequest)
    requires
        book.consistent(),
        request.bet_amount > 0,
    ensures
        book.place(request).consistent(),
        book.place(request).lottery_pool.total_bet_amount == staked(
            book.place(request).bet_accounts,
        ),
{
    let ctx = book.placing(request.bettor);
    if ctx.outcome(request.now, request.bet_amount, request.moved) is Ok {
        assert(book.place(request).bet_accounts.drop_last() =~= book.bet_accounts);
    }
}

/// Whatever calls of `place_bet` are made on a consistent book, one after
/// the other, the pool's total equals the sum of the stakes of all bets
/// placed so far, and the book stays consistent.
pub proof fn lemma_bets_add_up(book: PoolBook, requests: Seq<BetRequest>)
    requires
        book.consistent(),
        forall|i: int| 0 <= i < requests.len() ==> (#[trigger] requests[i]).bet_amount > 0,
    ensures
        book.place_all(requests).consistent(),
        book.place_all(requests).lottery_pool.total_bet_amount == staked(
            book.place_all(requests).bet_accounts,
        ),
    decreases requests.len(),
{
    if requests.len() > 0 {
        lemma_bets_add_up(book, requests.drop_last());
        lemma_bet_keeps_book_consistent(book.place_all(requests.drop_last()), requests.last());
    }
}

/// A participant has one bet on a pool at most: once its bet is in a
/// consistent book, every further call of `place_bet` for it is refused, with
/// `AlreadyBet` before the deadline, and leaves the book as it is.
pub proof fn lemma_one_bet_per_participant(book: PoolBook, request: BetRequest)
    requires
        book.consistent(),
        book.has_bet(request.bettor),
    ensures
        book.placing(request.bettor).outcome(request.now, request.bet_amount, request.moved)
            is Err,
        request.now < book.lottery_pool.end_timestamp ==> book.placing(request.bettor).outcome(
            request.now,
            request.bet_amount,
            request.moved,
        ) == Err::<(), MyLotteryError>(MyLotteryError::AlreadyBet),
        book.place(request) == book,
{
}

/// Once a participant's bet on a pool is placed, a second call for the same
/// participant and pool before the deadline is refused with `AlreadyBet`, and
/// changes nothing: no second stake is recorded. (At or after the deadline
/// the second call is refused as well, with `BettingPeriodEnded`.)
pub proof fn lemma_second_bet_refused(
    ctx: PlaceBet,
    now: i64,
    bet_amount: u64,
    bet_option: BetOption,
    moved: TransferOutcome,
    later: i64,
    second_amount: u64,
    second_option: BetOption,
    second_moved: TransferOutcome,
)
    requires
        bet_amount > 0,
        ctx.outcome(now, bet_amount, moved) is Ok,
    ensures
        ({
            let placed = ctx.after(now, bet_amount, bet_option, moved);
            &&& later < ctx.lottery_pool.end_timestamp ==> placed.outcome(
                later,
                second_amount,
                second_moved,
            ) == Err::<(), MyLotteryError>(MyLotteryError::AlreadyBet)
            &&& placed.outcome(later, second_amount, second_moved) is Err
            &&& placed.after(later, second_amount, second_option, second_moved) == placed
        }),
{
}

/// Once a pool is settled, every further settlement of it is refused with
/// `AlreadySettled`, asks for no transfer and changes nothing.
pub proof fn lemma_pool_settles_once(
    book: PoolBook,
    winning_option: BetOption,
    moved: TransferOutcome,
    second_option: BetOption,
    second_moved: TransferOutcome,
)
    requires
        book.outcome(winning_option, moved) is Ok,
    ensures
        ({
            let settled = book.after(winning_option, moved);
            &&& settled.lottery_pool.is_settled
            &&& settled.outcome(second_option, second_moved) == Err::<
                Seq<Transfer>,
                MyLotteryError,
            >(MyLotteryError::AlreadySettled)
            &&& settled.after(second_option, second_moved) == settled
        }),
{
}

/// Once a bet is settled against an oracle's record, every further
/// settlement of it is refused with `AlreadySettled`, asks for no transfer
/// and changes nothing.
pub proof fn lemma_bet_settles_once(
    ctx: SettleBet,
    oracle: OracleRecord,
    moved: TransferOutcome,
    second_oracle: OracleRecord,
    second_moved: TransferOutcome,
)
    requires
        ctx.outcome(oracle, moved) is Ok,
    ensures
        ({
            let settled = ctx.after(oracle, moved);
            &&& settled.bet_account.is_settled
            &&& settled.outcome(second_oracle, second_moved) == Err::<
                Option<Transfer>,
                MyLotteryError,
            >(MyLotteryError::AlreadySettled)
            &&& settled.after(second_oracle, second_moved) == settled
        }),
{
}

/// Settling a pool keeps a consistent book consistent.
pub proof fn lemma_settlement_keeps_book_consistent(
    book: PoolBook,
    winning_option: BetOption,
    moved: TransferOutcome,
)
    requires
        book.consistent(),
    ensures
        book.after(winning_option, moved).consistent(),
{
    if book.outcome(winning_option, moved) is Ok {
        lemma_staked_by_stakes(book.after(winning_option, moved).bet_accounts, book.bet_accounts);
    }
}

/// Settling one bet against an oracle's record keeps a consistent book
/// consistent, and leaves the pool and every other bet as they were.
pub proof fn lemma_bet_settlement_keeps_book_consistent(
    book: PoolBook,
    i: int,
    oracle: OracleRecord,
    moved: TransferOutcome,
)
    requires
        book.consistent(),
        0 <= i < book.bet_accounts.len(),
    ensures
        book.settle_one(i, oracle, moved).consistent(),
        book.settle_one(i, oracle, moved).lottery_pool == book.lottery_pool,
        forall|j: int|
            0 <= j < book.bet_accounts.len() && j != i ==> book.settle_one(
                i,
                oracle,
                moved,
            ).bet_accounts[j] == book.bet_accounts[j],
{
    lemma_staked_by_stakes(book.settle_one(i, oracle, moved).bet_accounts, book.bet_accounts);
}

/// Closing a pool keeps a consistent book consistent.
pub proof fn lemma_closing_keeps_book_consistent(book: PoolBook)
    requires
        book.consistent(),
    ensures
        book.after_closing().consistent(),
{
}

/// Two bets of one pool are settled against an oracle's records in either
/// order: each call ends the same way whichever comes first, and the book
/// that both leave is the same.
pub proof fn lemma_bets_settle_in_any_order(
    book: PoolBook,
    i: int,
    oracle_i: OracleRecord,
    moved_i: TransferOutcome,
    j: int,
    oracle_j: OracleRecord,
    moved_j: TransferOutcome,
)
    requires
        0 <= i < book.bet_accounts.len(),
        0 <= j < book.bet_accounts.len(),
        i != j,
    ensures
        book.settle_one(i, oracle_i, moved_i).settling(j).outcome(oracle_j, moved_j)
            == book.settling(j).outcome(oracle_j, moved_j),
        book.settle_one(j, oracle_j, moved_j).settling(i).outcome(oracle_i, moved_i)
            == book.settling(i).outcome(oracle_i, moved_i),
        book.settle_one(i, oracle_i, moved_i).settle_one(j, oracle_j, moved_j) == book.settle_one(
            j,
            oracle_j,
            moved_j,
        ).settle_one(i, oracle_i, moved_i),
{
    let first = book.settle_one(i, oracle_i, moved_i).settle_one(j, oracle_j, moved_j);
    let second = book.settle_one(j, oracle_j, moved_j).settle_one(i, oracle_i, moved_i);
    assert(first.bet_accounts =~= second.bet_accounts);
}

/// A bet that chose the winning outcome is paid its share of the pool, which
/// is never more than the pool holds and, where the stakes of the bets add up
/// to the pool's total, never less than the bet's own stake; any other bet is
/// paid nothing.
pub proof fn lemma_payout_bounds(book: PoolBook, winning_option: BetOption, i: int)
    requires
        0 <= i < book.bet_accounts.len(),
    ensures
        ({
            let bet = book.bet_accounts[i];
            let total = book.lottery_pool.total_bet_amount as int;
            let payout = payout_at(book.bet_accounts, total, winning_option, i);
            &&& 0 <= payout <= total
            &&& bet.bet_option != winning_option ==> payout == 0
            &&& bet.bet_option == winning_option && staked(book.bet_accounts) == total ==> payout
                >= bet.bet_amount
        }),
{
    let bet = book.bet_accounts[i];
    let total = book.lottery_pool.total_bet_amount as int;
    let side = staked_on(book.bet_accounts, winning_option);
    if bet.bet_option == winning_option {
        lemma_stake_within_side(book.bet_accounts, i);
        lemma_side_within_all(book.bet_accounts, winning_option);
        lemma_share_rounds_down(bet.bet_amount as int, total, side);
        lemma_share_bounds(bet.bet_amount as int, total, side);
    }
}

/// Every transfer that pays the first `n` bets moves something, from the
/// pool, to a bettor among them who chose the winning outcome, and is that
/// bet's share.
proof fn lemma_payouts_pay_winners(book: PoolBook, winning_option: BetOption, n: int, k: int)
    requires
        0 <= n <= book.bet_accounts.len(),
        0 <= k < payouts_due(
            book.bet_accounts,
            book.lottery_pool_key,
            book.lottery_pool.total_bet_amount as int,
            winning_option,
            n,
        ).len(),
    ensures
        ({
            let total = book.lottery_pool.total_bet_amount as int;
            let transfer = payouts_due(
                book.bet_accounts,
                book.lottery_pool_key,
                total,
                winning_option,
                n,
            )[k];
            &&& transfer.amount > 0
            &&& transfer.from == book.lottery_pool_key
            &&& exists|i: int|
                0 <= i < n && (#[trigger] book.bet_accounts[i]).bettor == transfer.to
                    && book.bet_accounts[i].bet_option == winning_option && transfer.amount
                    == payout_at(book.bet_accounts, total, winning_option, i)
        }),
    decreases n,
{
    let bets = book.bet_accounts;
    let total = book.lottery_pool.total_bet_amount as int;
    let earlier = payouts_due(bets, book.lottery_pool_key, total, winning_option, n - 1);
    if k < earlier.len() {
        lemma_payouts_pay_winners(book, winning_option, n - 1, k);
    } else {
        lemma_payout_bounds(book, winning_option, n - 1);
        assert(bets[n - 1].bettor == payouts_due(
            bets,
            book.lottery_pool_key,
            total,
            winning_option,
            n,
        )[k].to);
    }
}

/// Every transfer that a settlement of a pool asks for moves something, from
/// the pool, to the bettor of one of the bets that chose the winning outcome,
/// and is that bet's share of the pool.
pub proof fn lemma_transfers_pay_winners(book: PoolBook, winning_option: BetOption, k: int)
    requires
        0 <= k < book.transfers(winning_option).len(),
    ensures
        ({
            let transfer = book.transfers(winning_option)[k];
            &&& transfer.amount > 0
            &&& transfer.from == book.lottery_pool_key
            &&& exists|i: int|
                0 <= i < book.bet_accounts.len() && (#[trigger] book.bet_accounts[i]).bettor
                    == transfer.to && book.bet_accounts[i].bet_option == winning_option
                    && transfer.amount == payout_at(
                    book.bet_accounts,
                    book.lottery_pool.total_bet_amount as int,
                    winning_option,
                    i,
                )
        }),
{
    lemma_payouts_pay_winners(book, winning_option, book.bet_accounts.len() as int, k);
}

/// The payouts of the first `n` bets, multiplied by what was staked on the
/// winning outcome, stay within the pool multiplied by what the first `n`
/// bets staked on it.
proof fn lemma_payouts_within_side(book: PoolBook, winning_option: BetOption, n: int)
    requires
        0 <= n <= book.bet_accounts.len(),
    ensures
        ({
            let total = book.lottery_pool.total_bet_amount as int;
            let paid = transferred(
                payouts_due(book.bet_accounts, book.lottery_pool_key, total, winning_option, n),
            );
            let side = staked_on(book.bet_accounts, winning_option);
            &&& 0 <= paid
            &&& side * paid <= total * staked_on(book.bet_accounts.take(n), winning_option)
            &&& side == 0 ==> paid == 0
        }),
    decreases n,
{
    let bets = book.bet_accounts;
    let total = book.lottery_pool.total_bet_amount as int;
    let side = staked_on(bets, winning_option);
    lemma_side_within_all(bets.take(n), winning_option);
    lemma_side_within_all(bets, winning_option);
    if n > 0 {
        lemma_payouts_within_side(book, winning_option, n - 1);
        lemma_staked_step(bets, n - 1, winning_option);
        lemma_payout_bounds(book, winning_option, n - 1);
        let earlier = payouts_due(bets, book.lottery_pool_key, total, winning_option, n - 1);
        let paid_earlier = transferred(earlier);
        let side_earlier = staked_on(bets.take(n - 1), winning_option);
        let payout = payout_at(bets, total, winning_option, n - 1);
        let stake = bets[n - 1].bet_amount as int;
        if payout > 0 {
            let transfer = Transfer {
                from: book.lottery_pool_key,
                to: bets[n - 1].bettor,
                amount: payout as u64,
            };
            assert(earlier.push(transfer).drop_last() =~= earlier);
            lemma_share_rounds_down(stake, total, side);
            assert(side * (paid_earlier + payout) <= total * (side_earlier + stake))
                by (nonlinear_arith)
                requires
                    side * paid_earlier <= total * side_earlier,
                    side * payout <= stake * total,
            ;
        } else {
            if bets[n - 1].bet_option == winning_option {
                assert(total * side_earlier <= total * (side_earlier + stake))
                    by (nonlinear_arith)
                    requires
                        0 <= total,
                        0 <= stake,
                ;
            }
        }
    }
}

/// Settling a pool never pays out more than the pool holds: the amounts of
/// the transfers that a settlement asks for add up to the pool's total at
/// most.
pub proof fn lemma_payouts_within_pool(book: PoolBook, winning_option: BetOption)
    ensures
        0 <= transferred(book.transfers(winning_option)) <= book.lottery_pool.total_bet_amount,
{
    let bets = book.bet_accounts;
    let total = book.lottery_pool.total_bet_amount as int;
    let side = staked_on(bets, winning_option);
    let paid = transferred(book.transfers(winning_option));
    lemma_payouts_within_side(book, winning_option, bets.len() as int);
    lemma_side_within_all(bets, winning_option);
    assert(bets.take(bets.len() as int) =~= bets);
    if side > 0 {
        assert(paid <= total) by (nonlinear_arith)
            requires
                side * paid <= total * side,
                0 < side,
        ;
    }
}

/// The payouts of the first `n` bets and one unit for each winner among
/// them, multiplied by what was staked on the winning outcome, reach the pool
/// multiplied by what the first `n` bets staked on it, and pass it by a unit
/// for each of those winners.
proof fn lemma_payouts_reach_side(book: PoolBook, winning_option: BetOption, n: int)
    requires
        0 <= n <= book.bet_accounts.len(),
        staked_on(book.bet_accounts, winning_option) > 0,
    ensures
        ({
            let total = book.lottery_pool.total_bet_amount as int;
            let paid = transferred(
                payouts_due(book.bet_accounts, book.lottery_pool_key, total, winning_option, n),
            );
            let side = staked_on(book.bet_accounts, winning_option);
            let winners = bets_on(book.bet_accounts.take(n), winning_option);
            side * (paid + winners) >= total * staked_on(book.bet_accounts.take(n), winning_option)
                + winners
        }),
    decreases n,
{
    let bets = book.bet_accounts;
    let total = book.lottery_pool.total_bet_amount as int;
    let side = staked_on(bets, winning_option);
    if n > 0 {
        lemma_payouts_reach_side(book, winning_option, n - 1);
        lemma_staked_step(bets, n - 1, winning_option);
        lemma_payout_bounds(book, winning_option, n - 1);
        let earlier = payouts_due(bets, book.lottery_pool_key, total, winning_option, n - 1);
        let paid_earlier = transferred(earlier);
        let side_earlier = staked_on(bets.take(n - 1), winning_option);
        let winners_earlier = bets_on(bets.take(n - 1), winning_option);
        let payout = payout_at(bets, total, winning_option, n - 1);
        let stake = bets[n - 1].bet_amount as int;
        if payout > 0 {
            let transfer = Transfer {
                from: book.lottery_pool_key,
                to: bets[n - 1].bettor,
                amount: payout as u64,
            };
            assert(earlier.push(transfer).drop_last() =~= earlier);
        }
        if bets[n - 1].bet_option == winning_option {
            lemma_share_rounds_little(stake, total, side);
            assert(side * (paid_earlier + payout + (winners_earlier + 1)) >= total * (side_earlier
                + stake) + (winners_earlier + 1)) by (nonlinear_arith)
                requires
                    side * (paid_earlier + winners_earlier) >= total * side_earlier
                        + winners_earlier,
                    side * (payout + 1) > stake * total,
            ;
        }
    }
}

/// Where anything was staked on the winning outcome, settling a pool shares
/// out all of it but what the rounding leaves, which is less than one unit
/// for each bet on the winning outcome.
pub proof fn lemma_rounding_leaves_little(book: PoolBook, winning_option: BetOption)
    requires
        staked_on(book.bet_accounts, winning_option) > 0,
    ensures
        book.lottery_pool.total_bet_amount - transferred(book.transfers(winning_option)) < bets_on(
            book.bet_accounts,
            winning_option,
        ),
{
    let bets = book.bet_accounts;
    let total = book.lottery_pool.total_bet_amount as int;
    let side = staked_on(bets, winning_option);
    let paid = transferred(book.transfers(winning_option));
    let winners = bets_on(bets, winning_option);
    lemma_payouts_reach_side(book, winning_option, bets.len() as int);
    lemma_side_within_all(bets, winning_option);
    assert(bets.take(bets.len() as int) =~= bets);
    assert(total < paid + winners) by (nonlinear_arith)
        requires
            side * (paid + winners) >= total * side + winners,
            0 < side,
            0 < winners,
    ;
}

} // verus!
