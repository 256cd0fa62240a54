use fbbuy::MyLotteryError;

#[test]
fn each_reason_has_its_sentence() {
    assert_eq!(MyLotteryError::BettingPeriodEnded.message(), "The betting period has ended.");
    assert_eq!(
        MyLotteryError::AlreadySettled.message(),
        "The lottery has already been settled."
    );
    assert_eq!(
        MyLotteryError::AlreadyBet.message(),
        "You have already placed a bet for this match."
    );
    assert_eq!(
        MyLotteryError::AccountMismatch.message(),
        "The bet does not belong to this lottery pool."
    );
    assert_eq!(
        MyLotteryError::MismatchedEvent.message(),
        "The oracle record is about another match."
    );
    assert_eq!(
        MyLotteryError::StaleOracleData.message(),
        "The oracle record is older than the betting deadline."
    );
    assert_eq!(MyLotteryError::TransferFailure.message(), "The funds could not be moved.");
    assert_eq!(
        MyLotteryError::Unauthorized.message(),
        "Only the administrator of the pool may settle it."
    );
}

#[test]
fn no_two_reasons_share_a_sentence() {
    let all = [
        MyLotteryError::BettingPeriodEnded,
        MyLotteryError::AlreadySettled,
        MyLotteryError::AlreadyBet,
        MyLotteryError::AccountMismatch,
        MyLotteryError::MismatchedEvent,
        MyLotteryError::StaleOracleData,
        MyLotteryError::TransferFailure,
        MyLotteryError::Unauthorized,
    ];
    for (i, a) in all.iter().enumerate() {
        for b in all.iter().skip(i + 1) {
            assert_ne!(a, b);
            assert_ne!(a.message(), b.message());
        }
    }
}
