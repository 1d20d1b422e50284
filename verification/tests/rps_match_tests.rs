use pvp_engine::payout::PayoutReason;
use pvp_engine::rps_match::{
    create_commitment_hash, create_match, determine_winner, Choice, GameResult, MatchStatus,
    RpsError, TimeoutType,
};

const CREATOR: u64 = 11;
const OPPONENT: u64 = 22;
const SINK: u64 = 99;

fn salt_of(byte: u8) -> [u8; 32] {
    [byte; 32]
}

fn joined_match(bet: u64, fee_bps: u16) -> pvp_engine::rps_match::Match {
    let c_commit = create_commitment_hash(Choice::Rock, &salt_of(1), CREATOR, 1);
    let mut m = create_match(CREATOR, bet, c_commit, 1000, 2000, fee_bps, 100).unwrap();
    let o_commit = create_commitment_hash(Choice::Scissors, &salt_of(2), OPPONENT, 2);
    m.join_match(OPPONENT, o_commit, 500).unwrap();
    m
}

#[test]
fn rps_judging() {
    assert_eq!(determine_winner(Choice::Rock, Choice::Scissors), GameResult::CreatorWins);
    assert_eq!(determine_winner(Choice::Paper, Choice::Rock), GameResult::CreatorWins);
    assert_eq!(determine_winner(Choice::Scissors, Choice::Paper), GameResult::CreatorWins);
    assert_eq!(determine_winner(Choice::Scissors, Choice::Rock), GameResult::OpponentWins);
    assert_eq!(determine_winner(Choice::Rock, Choice::Paper), GameResult::OpponentWins);
    assert_eq!(determine_winner(Choice::Paper, Choice::Scissors), GameResult::OpponentWins);
    assert_eq!(determine_winner(Choice::Rock, Choice::Rock), GameResult::Tie);
    assert_eq!(determine_winner(Choice::Paper, Choice::Paper), GameResult::Tie);
    assert_eq!(determine_winner(Choice::Scissors, Choice::Scissors), GameResult::Tie);
}

#[test]
fn create_match_validations() {
    let c = [0u8; 32];
    assert_eq!(
        create_match(CREATOR, 0, c, 1000, 2000, 0, 100).unwrap_err(),
        RpsError::InvalidBetAmount
    );
    assert_eq!(
        create_match(CREATOR, 5000, c, 100, 2000, 0, 100).unwrap_err(),
        RpsError::InvalidDeadline
    );
    assert_eq!(
        create_match(CREATOR, 5000, c, 1000, 900, 0, 100).unwrap_err(),
        RpsError::InvalidDeadline
    );
    assert_eq!(
        create_match(CREATOR, 5000, c, 1000, 2000, 501, 100).unwrap_err(),
        RpsError::InvalidFeeRate
    );
    assert_eq!(
        create_match(CREATOR, 500, c, 1000, 2000, 0, 100).unwrap_err(),
        RpsError::BetTooSmall
    );
    assert_eq!(
        create_match(CREATOR, 100_000_000_001, c, 1000, 2000, 0, 100).unwrap_err(),
        RpsError::BetTooLarge
    );
    let m = create_match(CREATOR, 5000, c, 1000, 2000, 250, 100).unwrap();
    assert_eq!(m.status, MatchStatus::WaitingForOpponent);
    assert_eq!(m.bet_amount, 5000);
    assert_eq!(m.opponent, None);
}

#[test]
fn join_validations() {
    let c = [0u8; 32];
    let mut m = create_match(CREATOR, 5000, c, 1000, 2000, 0, 100).unwrap();
    assert_eq!(m.join_match(CREATOR, c, 500).unwrap_err(), RpsError::CannotPlaySelf);
    assert_eq!(m.join_match(OPPONENT, c, 1001).unwrap_err(), RpsError::DeadlinePassed);
    m.join_match(OPPONENT, c, 500).unwrap();
    assert_eq!(m.status, MatchStatus::WaitingForReveal);
    assert_eq!(m.join_match(33, c, 500).unwrap_err(), RpsError::InvalidMatchStatus);
}

#[test]
fn reveal_and_settle_with_fee() {
    let mut m = joined_match(1000, 250);
    m.reveal_choice(CREATOR, Choice::Rock, &salt_of(1), 1, 1500).unwrap();
    assert_eq!(m.status, MatchStatus::WaitingForReveal);
    m.reveal_choice(OPPONENT, Choice::Scissors, &salt_of(2), 2, 1600).unwrap();
    assert_eq!(m.status, MatchStatus::ReadyToSettle);
    let payouts = m.settle(SINK).unwrap();
    assert_eq!(m.status, MatchStatus::Settled);
    // total pot 2000, fee 2000 * 250 / 10000 = 50, winner takes 1950
    assert_eq!(payouts.len(), 2);
    assert_eq!(payouts[0].player, CREATOR);
    assert_eq!(payouts[0].amount, 1950);
    assert_eq!(payouts[0].reason, PayoutReason::Winner);
    assert_eq!(payouts[1].player, SINK);
    assert_eq!(payouts[1].amount, 50);
    assert_eq!(payouts[1].reason, PayoutReason::Penalty);
    let total: u64 = payouts.iter().map(|p| p.amount).sum();
    assert_eq!(total, 2000, "payouts conserve the pot");
}

#[test]
fn settle_zero_fee_winner_takes_all() {
    let mut m = joined_match(1000, 0);
    m.reveal_choice(CREATOR, Choice::Rock, &salt_of(1), 1, 1500).unwrap();
    m.reveal_choice(OPPONENT, Choice::Scissors, &salt_of(2), 2, 1600).unwrap();
    let payouts = m.settle(SINK).unwrap();
    assert_eq!(payouts.len(), 1);
    assert_eq!(payouts[0].player, CREATOR);
    assert_eq!(payouts[0].amount, 2000);
    assert_eq!(payouts[0].reason, PayoutReason::Winner);
}

#[test]
fn settle_tie_refunds_both() {
    let c_commit = create_commitment_hash(Choice::Paper, &salt_of(1), CREATOR, 1);
    let mut m = create_match(CREATOR, 1000, c_commit, 1000, 2000, 250, 100).unwrap();
    let o_commit = create_commitment_hash(Choice::Paper, &salt_of(2), OPPONENT, 2);
    m.join_match(OPPONENT, o_commit, 500).unwrap();
    m.reveal_choice(CREATOR, Choice::Paper, &salt_of(1), 1, 1500).unwrap();
    m.reveal_choice(OPPONENT, Choice::Paper, &salt_of(2), 2, 1600).unwrap();
    let payouts = m.settle(SINK).unwrap();
    assert_eq!(payouts.len(), 2);
    assert_eq!(payouts[0].player, CREATOR);
    assert_eq!(payouts[0].amount, 1000);
    assert_eq!(payouts[0].reason, PayoutReason::Tie);
    assert_eq!(payouts[1].player, OPPONENT);
    assert_eq!(payouts[1].amount, 1000);
    assert_eq!(payouts[1].reason, PayoutReason::Tie);
}

#[test]
fn settle_twice_fails_and_leaves_state_unchanged() {
    let mut m = joined_match(1000, 250);
    m.reveal_choice(CREATOR, Choice::Rock, &salt_of(1), 1, 1500).unwrap();
    m.reveal_choice(OPPONENT, Choice::Scissors, &salt_of(2), 2, 1600).unwrap();
    assert!(m.settle(SINK).is_ok());
    let status_after_first = m.status;
    let err = m.settle(SINK).unwrap_err();
    assert_eq!(err, RpsError::MatchAlreadyFinalized);
    assert_eq!(m.status, status_after_first);
    assert_eq!(m.status, MatchStatus::Settled);
    assert_eq!(m.revealed_creator, Some(Choice::Rock));
    assert_eq!(m.revealed_opponent, Some(Choice::Scissors));
}

#[test]
fn settle_before_finished_rejected() {
    let mut m = joined_match(1000, 0);
    assert_eq!(m.settle(SINK).unwrap_err(), RpsError::InvalidMatchStatus);
}

#[test]
fn reveal_validations() {
    let mut m = joined_match(1000, 0);
    assert_eq!(
        m.reveal_choice(CREATOR, Choice::Rock, &salt_of(9), 1, 1500).unwrap_err(),
        RpsError::InvalidCommitment,
        "a reveal with the wrong salt must be rejected"
    );
    assert_eq!(
        m.reveal_choice(CREATOR, Choice::Paper, &salt_of(1), 1, 1500).unwrap_err(),
        RpsError::InvalidCommitment,
        "a reveal with a different choice must be rejected"
    );
    assert_eq!(
        m.reveal_choice(77, Choice::Rock, &salt_of(1), 1, 1500).unwrap_err(),
        RpsError::NotParticipant
    );
    assert_eq!(
        m.reveal_choice(CREATOR, Choice::Rock, &salt_of(1), 1, 2500).unwrap_err(),
        RpsError::DeadlinePassed
    );
    m.reveal_choice(CREATOR, Choice::Rock, &salt_of(1), 1, 1500).unwrap();
    assert_eq!(
        m.reveal_choice(CREATOR, Choice::Rock, &salt_of(1), 1, 1500).unwrap_err(),
        RpsError::AlreadyRevealed
    );
}

#[test]
fn cancel_match_paths() {
    let c = [0u8; 32];
    let mut m = create_match(CREATOR, 5000, c, 1000, 2000, 0, 100).unwrap();
    assert_eq!(m.cancel_match(OPPONENT).unwrap_err(), RpsError::OnlyCreatorCanCancel);
    let payouts = m.cancel_match(CREATOR).unwrap();
    assert_eq!(m.status, MatchStatus::Cancelled);
    assert_eq!(payouts.len(), 1);
    assert_eq!(payouts[0].player, CREATOR);
    assert_eq!(payouts[0].amount, 5000);
    assert_eq!(payouts[0].reason, PayoutReason::Refund);
    let mut joined = joined_match(1000, 0);
    assert_eq!(joined.cancel_match(CREATOR).unwrap_err(), RpsError::CannotCancelJoinedMatch);
}

#[test]
fn timeout_no_opponent_refunds_creator() {
    let c = [0u8; 32];
    let mut m = create_match(CREATOR, 5000, c, 1000, 2000, 0, 100).unwrap();
    assert_eq!(m.timeout_match(900, SINK).unwrap_err(), RpsError::DeadlineNotPassed);
    let (kind, winner, payouts) = m.timeout_match(1001, SINK).unwrap();
    assert_eq!(kind, TimeoutType::NoOpponent);
    assert_eq!(winner, None);
    assert_eq!(m.status, MatchStatus::TimedOut);
    assert_eq!(payouts.len(), 1);
    assert_eq!(payouts[0].player, CREATOR);
    assert_eq!(payouts[0].amount, 5000);
    assert_eq!(payouts[0].reason, PayoutReason::Refund);
}

#[test]
fn commit_phase_timeout_forfeits_silent_party() {
    // The creator revealed; the opponent never acted before the deadline.
    let mut m = joined_match(1000, 250);
    m.reveal_choice(CREATOR, Choice::Rock, &salt_of(1), 1, 1500).unwrap();
    let (kind, winner, payouts) = m.timeout_match(2001, SINK).unwrap();
    assert_eq!(kind, TimeoutType::OpponentNoReveal);
    assert_eq!(winner, Some(CREATOR));
    assert_eq!(m.status, MatchStatus::TimedOut);
    // pot 2000, penalty 2000 * 500 / 10000 = 100: winner takes 1900 and the
    // penalty is a payout of its own.
    assert_eq!(payouts.len(), 2);
    assert_eq!(payouts[0].player, CREATOR);
    assert_eq!(payouts[0].amount, 1900);
    assert_eq!(payouts[0].reason, PayoutReason::Winner);
    assert_eq!(payouts[1].player, SINK);
    assert_eq!(payouts[1].amount, 100);
    assert_eq!(payouts[1].reason, PayoutReason::Penalty);
    let total: u64 = payouts.iter().map(|p| p.amount).sum();
    assert_eq!(total, 2000);
}

#[test]
fn reveal_timeout_forfeits_creator() {
    let mut m = joined_match(1000, 0);
    m.reveal_choice(OPPONENT, Choice::Scissors, &salt_of(2), 2, 1500).unwrap();
    let (kind, winner, payouts) = m.timeout_match(2001, SINK).unwrap();
    assert_eq!(kind, TimeoutType::CreatorNoReveal);
    assert_eq!(winner, Some(OPPONENT));
    assert_eq!(payouts[0].player, OPPONENT);
    assert_eq!(payouts[0].amount, 1900);
    let total: u64 = payouts.iter().map(|p| p.amount).sum();
    assert_eq!(total, 2000);
}

#[test]
fn both_timeout_refunds_minus_penalty() {
    let mut m = joined_match(1000, 0);
    let (kind, winner, payouts) = m.timeout_match(2001, SINK).unwrap();
    assert_eq!(kind, TimeoutType::BothNoReveal);
    assert_eq!(winner, None);
    // penalty 100, half each: refunds of 950, remainder 100 to the sink.
    assert_eq!(payouts.len(), 3);
    assert_eq!(payouts[0].player, CREATOR);
    assert_eq!(payouts[0].amount, 950);
    assert_eq!(payouts[0].reason, PayoutReason::Refund);
    assert_eq!(payouts[1].player, OPPONENT);
    assert_eq!(payouts[1].amount, 950);
    assert_eq!(payouts[2].player, SINK);
    assert_eq!(payouts[2].amount, 100);
    assert_eq!(payouts[2].reason, PayoutReason::Penalty);
    let total: u64 = payouts.iter().map(|p| p.amount).sum();
    assert_eq!(total, 2000);
}

#[test]
fn timeout_rejected_when_both_acted_or_finalized() {
    let mut m = joined_match(1000, 0);
    m.reveal_choice(CREATOR, Choice::Rock, &salt_of(1), 1, 1500).unwrap();
    m.reveal_choice(OPPONENT, Choice::Scissors, &salt_of(2), 2, 1600).unwrap();
    assert_eq!(
        m.timeout_match(2001, SINK).unwrap_err(),
        RpsError::CannotTimeout,
        "a match ready to settle resolves by judging, not by timeout"
    );
    m.settle(SINK).unwrap();
    assert_eq!(m.timeout_match(2001, SINK).unwrap_err(), RpsError::MatchAlreadyFinalized);
}

#[test]
fn timeout_rejects_when_both_revealed_midphase() {
    // Both revealed but the first reveal left the status at WaitingForReveal
    // only until the second arrived; construct the both-acted rejection from
    // the reveal-phase rule directly.
    let mut m = joined_match(1000, 0);
    m.reveal_choice(OPPONENT, Choice::Scissors, &salt_of(2), 2, 1500).unwrap();
    m.reveal_choice(CREATOR, Choice::Rock, &salt_of(1), 1, 1600).unwrap();
    assert_eq!(m.status, MatchStatus::ReadyToSettle);
    assert_eq!(m.timeout_match(2001, SINK).unwrap_err(), RpsError::CannotTimeout);
}
