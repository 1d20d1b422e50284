//! The single-round commit-reveal match engine: a creator stakes and posts a
//! commitment, an opponent joins with their own commitment, both reveal, and
//! the match settles with a capped basis-point fee. Every phase has a
//! deadline; a party that fails to act forfeits under the timeout policy.
//! All operations are pure state transitions over the `Match` record: the
//! caller holds the stakes and effects the returned payouts.

use vstd::prelude::*;
use crate::commitment;
use crate::payout::{Payout, PayoutReason, sum_amounts, lemma_sum_amounts_small};

verus! {

/// The largest allowed fee, in basis points (5%).
pub const MAX_FEE_BPS: u16 = 500;

/// The penalty rate applied to a party that fails to reveal, in basis points.
pub const REVEAL_PENALTY_BPS: u64 = 500;

/// The smallest allowed stake.
pub const MIN_BET: u64 = 1000;

/// The largest allowed stake.
pub const MAX_BET: u64 = 100_000_000_000;

#[derive(Clone, Copy, PartialEq, Eq, Structural, Debug)]
pub enum Choice {
    Rock,
    Paper,
    Scissors,
}

#[derive(Clone, Copy, PartialEq, Eq, Structural, Debug)]
pub enum MatchStatus {
    WaitingForOpponent,
    WaitingForReveal,
    ReadyToSettle,
    Settled,
    Cancelled,
    TimedOut,
}

#[derive(Clone, Copy, PartialEq, Eq, Structural, Debug)]
pub enum GameResult {
    CreatorWins,
    OpponentWins,
    Tie,
}

#[derive(Clone, Copy, PartialEq, Eq, Structural, Debug)]
pub enum TimeoutType {
    NoOpponent,
    CreatorNoReveal,
    OpponentNoReveal,
    BothNoReveal,
}

#[derive(Clone, Copy, PartialEq, Eq, Structural, Debug)]
pub enum RpsError {
    InvalidBetAmount,
    InvalidDeadline,
    InvalidFeeRate,
    InvalidMatchStatus,
    DeadlinePassed,
    CannotPlaySelf,
    InvalidCommitment,
    AlreadyRevealed,
    NotParticipant,
    OnlyCreatorCanCancel,
    CannotCancelJoinedMatch,
    DeadlineNotPassed,
    ShouldSettleNotTimeout,
    CannotTimeout,
    InvalidCreator,
    InvalidOpponent,
    CreatorNotRevealed,
    OpponentNotRevealed,
    ArithmeticOverflow,
    BetTooSmall,
    BetTooLarge,
    MatchAlreadyFinalized,
}

/// A single wagered contest between a creator and one opponent.
#[derive(Debug)]
pub struct Match {
    pub creator: u64,
    pub opponent: Option<u64>,
    pub bet_amount: u64,
    pub commitment_creator: [u8; 32],
    pub commitment_opponent: [u8; 32],
    pub revealed_creator: Option<Choice>,
    pub revealed_opponent: Option<Choice>,
    pub join_deadline: i64,
    pub reveal_deadline: i64,
    pub status: MatchStatus,
    pub fee_bps: u16,
    pub created_at: i64,
}

/// The byte discriminant a choice commits to: Rock 0, Paper 1, Scissors 2.
pub open spec fn spec_choice_byte(c: Choice) -> u8 {
    match c {
        Choice::Rock => 0,
        Choice::Paper => 1,
        Choice::Scissors => 2,
    }
}

/// The winner of a single round: Rock beats Scissors, Paper beats Rock,
/// Scissors beats Paper; identical choices tie.
pub open spec fn spec_winner(creator_choice: Choice, opponent_choice: Choice) -> GameResult {
    match (creator_choice, opponent_choice) {
        (Choice::Rock, Choice::Scissors) => GameResult::CreatorWins,
        (Choice::Paper, Choice::Rock) => GameResult::CreatorWins,
        (Choice::Scissors, Choice::Paper) => GameResult::CreatorWins,
        (Choice::Scissors, Choice::Rock) => GameResult::OpponentWins,
        (Choice::Rock, Choice::Paper) => GameResult::OpponentWins,
        (Choice::Paper, Choice::Scissors) => GameResult::OpponentWins,
        _ => GameResult::Tie,
    }
}

/// The commitment a party must have posted to reveal `choice` with `salt`
/// and `nonce`.
pub open spec fn spec_match_commitment(choice: Choice, salt: Seq<u8>, party: u64, nonce: u64) -> Seq<
    u8,
> {
    commitment::spec_commit(spec_choice_byte(choice), salt, party, nonce)
}

impl Match {
    /// Well-formedness: the stake and fee are in range and each status only
    /// holds with the fields it implies.
    pub open spec fn wf(self) -> bool {
        &&& MIN_BET <= self.bet_amount <= MAX_BET
        &&& self.fee_bps <= MAX_FEE_BPS
        &&& (self.opponent matches Some(o) ==> o != self.creator)
        &&& (self.status == MatchStatus::WaitingForOpponent ==> self.opponent is None
            && self.revealed_creator is None && self.revealed_opponent is None)
        &&& (self.status == MatchStatus::WaitingForReveal ==> self.opponent is Some)
        &&& (self.status == MatchStatus::ReadyToSettle ==> self.opponent is Some
            && self.revealed_creator is Some && self.revealed_opponent is Some)
        &&& (self.status == MatchStatus::Settled ==> self.opponent is Some)
    }

    /// The match has reached a terminal state.
    pub open spec fn spec_finalized(self) -> bool {
        self.status == MatchStatus::Settled || self.status == MatchStatus::Cancelled
            || self.status == MatchStatus::TimedOut
    }

    /// Whether the match is in a terminal state (settled, cancelled or timed
    /// out); a finalized match accepts no further operation.
    pub fn is_finalized(&self) -> (r: bool)
        ensures
            r == self.spec_finalized(),
    {
        match self.status {
            MatchStatus::Settled => true,
            MatchStatus::Cancelled => true,
            MatchStatus::TimedOut => true,
            _ => false,
        }
    }

    /// Rejects any operation on a finalized match.
    pub fn validate_active(&self) -> (r: Result<(), RpsError>)
        ensures
            r == (if self.spec_finalized() {
                Err::<(), RpsError>(RpsError::MatchAlreadyFinalized)
            } else {
                Ok::<(), RpsError>(())
            }),
    {
        if self.is_finalized() {
            Err(RpsError::MatchAlreadyFinalized)
        } else {
            Ok(())
        }
    }
}

impl Choice {
    /// The byte discriminant of this choice.
    pub fn to_u8(self) -> (r: u8)
        ensures
            r == spec_choice_byte(self),
    {
        match self {
            Choice::Rock => 0,
            Choice::Paper => 1,
            Choice::Scissors => 2,
        }
    }
}

/// The commitment hash binding (choice, salt, party, nonce). Binding the
/// party identity and a caller-supplied nonce is mandatory: a commitment over
/// the choice and salt alone could be replayed by another party.
pub fn create_commitment_hash(choice: Choice, salt: &[u8; 32], player: u64, nonce: u64) -> (r: [u8;
    32])
    ensures
        r@ == spec_match_commitment(choice, salt@, player, nonce),
{
    commitment::commit(choice.to_u8(), salt, player, nonce)
}

/// Judges the revealed choices.
pub fn determine_winner(creator_choice: Choice, opponent_choice: Choice) -> (r: GameResult)
    ensures
        r == spec_winner(creator_choice, opponent_choice),
{
    match (creator_choice, opponent_choice) {
        (Choice::Rock, Choice::Scissors) => GameResult::CreatorWins,
        (Choice::Paper, Choice::Rock) => GameResult::CreatorWins,
        (Choice::Scissors, Choice::Paper) => GameResult::CreatorWins,
        (Choice::Scissors, Choice::Rock) => GameResult::OpponentWins,
        (Choice::Rock, Choice::Paper) => GameResult::OpponentWins,
        (Choice::Paper, Choice::Scissors) => GameResult::OpponentWins,
        _ => GameResult::Tie,
    }
}

/// Creates a match: the creator stakes `bet_amount`, posts a commitment and
/// sets the deadlines and fee. Out-of-range stakes, deadlines not after `now`
/// (or a reveal deadline not after the join deadline) and fees over the cap
/// are rejected, in that order of checks.
pub fn create_match(
    creator: u64,
    bet_amount: u64,
    commitment_hash: [u8; 32],
    join_deadline: i64,
    reveal_deadline: i64,
    fee_bps: u16,
    now: i64,
) -> (r: Result<Match, RpsError>)
    ensures
        (r matches Ok(m)) <==> (MIN_BET <= bet_amount <= MAX_BET && join_deadline > now
            && reveal_deadline > join_deadline && fee_bps <= MAX_FEE_BPS),
        r matches Ok(m) ==> m == (Match {
            creator,
            opponent: None,
            bet_amount,
            commitment_creator: commitment_hash,
            commitment_opponent: vstd::array::array_fill_for_copy_types::<u8, 32>(0u8),
            revealed_creator: None,
            revealed_opponent: None,
            join_deadline,
            reveal_deadline,
            status: MatchStatus::WaitingForOpponent,
            fee_bps,
            created_at: now,
        }) && m.wf(),
        bet_amount == 0 ==> r == Err::<Match, RpsError>(RpsError::InvalidBetAmount),
        bet_amount > 0 && join_deadline <= now ==> r == Err::<Match, RpsError>(
            RpsError::InvalidDeadline,
        ),
        bet_amount > 0 && join_deadline > now && reveal_deadline <= join_deadline ==> r
            == Err::<Match, RpsError>(RpsError::InvalidDeadline),
        bet_amount > 0 && join_deadline > now && reveal_deadline > join_deadline && fee_bps
            > MAX_FEE_BPS ==> r == Err::<Match, RpsError>(RpsError::InvalidFeeRate),
        bet_amount > 0 && join_deadline > now && reveal_deadline > join_deadline && fee_bps
            <= MAX_FEE_BPS && bet_amount < MIN_BET ==> r == Err::<Match, RpsError>(
            RpsError::BetTooSmall,
        ),
        bet_amount > MAX_BET && join_deadline > now && reveal_deadline > join_deadline && fee_bps
            <= MAX_FEE_BPS ==> r == Err::<Match, RpsError>(RpsError::BetTooLarge),
{
    if bet_amount == 0 {
        return Err(RpsError::InvalidBetAmount);
    }
    if join_deadline <= now {
        return Err(RpsError::InvalidDeadline);
    }
    if reveal_deadline <= join_deadline {
        return Err(RpsError::InvalidDeadline);
    }
    if fee_bps > MAX_FEE_BPS {
        return Err(RpsError::InvalidFeeRate);
    }
    if bet_amount < MIN_BET {
        return Err(RpsError::BetTooSmall);
    }
    if bet_amount > MAX_BET {
        return Err(RpsError::BetTooLarge);
    }
    Ok(
        Match {
            creator,
            opponent: None,
            bet_amount,
            commitment_creator: commitment_hash,
            commitment_opponent: vstd::array::array_fill_for_copy_types::<u8, 32>(0u8),
            revealed_creator: None,
            revealed_opponent: None,
            join_deadline,
            reveal_deadline,
            status: MatchStatus::WaitingForOpponent,
            fee_bps,
            created_at: now,
        },
    )
}

impl Match {
    /// An opponent joins an open match before the join deadline, staking the
    /// same amount and posting their commitment. The creator cannot join
    /// their own match.
    pub fn join_match(&mut self, opponent: u64, commitment_hash: [u8; 32], now: i64) -> (r: Result<
        (),
        RpsError,
    >)
        requires
            old(self).wf(),
        ensures
            final(self).wf(),
            (r matches Ok(u)) <==> (old(self).status == MatchStatus::WaitingForOpponent && now
                <= old(self).join_deadline && opponent != old(self).creator),
            r matches Ok(u) ==> *final(self) == (Match {
                opponent: Some(opponent),
                commitment_opponent: commitment_hash,
                status: MatchStatus::WaitingForReveal,
                ..*old(self)
            }),
            r matches Err(e) ==> *final(self) == *old(self) && e == (
            if old(self).spec_finalized() {
                RpsError::MatchAlreadyFinalized
            } else if old(self).status != MatchStatus::WaitingForOpponent {
                RpsError::InvalidMatchStatus
            } else if now > old(self).join_deadline {
                RpsError::DeadlinePassed
            } else {
                RpsError::CannotPlaySelf
            }),
    {
        if self.is_finalized() {
            return Err(RpsError::MatchAlreadyFinalized);
        }
        if !matches!(self.status, MatchStatus::WaitingForOpponent) {
            return Err(RpsError::InvalidMatchStatus);
        }
        if now > self.join_deadline {
            return Err(RpsError::DeadlinePassed);
        }
        if opponent == self.creator {
            return Err(RpsError::CannotPlaySelf);
        }
        self.opponent = Some(opponent);
        self.commitment_opponent = commitment_hash;
        self.status = MatchStatus::WaitingForReveal;
        Ok(())
    }

    /// A participant reveals their choice, salt and nonce before the reveal
    /// deadline. The reveal is checked against the commitment that party
    /// posted; a mismatch or a second reveal is rejected. Once both parties
    /// have revealed, the match is ready to settle.
    pub fn reveal_choice(&mut self, player: u64, choice: Choice, salt: &[u8; 32], nonce: u64, now: i64) -> (r:
        Result<(), RpsError>)
        requires
            old(self).wf(),
        ensures
            final(self).wf(),
            r matches Err(e) ==> *final(self) == *old(self),
            old(self).spec_finalized() ==> r == Err::<(), RpsError>(RpsError::MatchAlreadyFinalized),
            !old(self).spec_finalized() && old(self).status != MatchStatus::WaitingForReveal ==> r
                == Err::<(), RpsError>(RpsError::InvalidMatchStatus),
            old(self).status == MatchStatus::WaitingForReveal && now > old(self).reveal_deadline
                ==> r == Err::<(), RpsError>(RpsError::DeadlinePassed),
            old(self).status == MatchStatus::WaitingForReveal && now <= old(self).reveal_deadline
                && player != old(self).creator && old(self).opponent != Some(player) ==> r
                == Err::<(), RpsError>(RpsError::NotParticipant),
            old(self).status == MatchStatus::WaitingForReveal && now <= old(self).reveal_deadline
                && player == old(self).creator ==> (
            if old(self).commitment_creator@ != spec_match_commitment(choice, salt@, player, nonce) {
                r == Err::<(), RpsError>(RpsError::InvalidCommitment)
            } else if old(self).revealed_creator is Some {
                r == Err::<(), RpsError>(RpsError::AlreadyRevealed)
            } else {
                r == Ok::<(), RpsError>(()) && *final(self) == (Match {
                    revealed_creator: Some(choice),
                    status: if old(self).revealed_opponent is Some {
                        MatchStatus::ReadyToSettle
                    } else {
                        MatchStatus::WaitingForReveal
                    },
                    ..*old(self)
                })
            }),
            old(self).status == MatchStatus::WaitingForReveal && now <= old(self).reveal_deadline
                && player != old(self).creator && old(self).opponent == Some(player) ==> (
            if old(self).commitment_opponent@ != spec_match_commitment(choice, salt@, player, nonce) {
                r == Err::<(), RpsError>(RpsError::InvalidCommitment)
            } else if old(self).revealed_opponent is Some {
                r == Err::<(), RpsError>(RpsError::AlreadyRevealed)
            } else {
                r == Ok::<(), RpsError>(()) && *final(self) == (Match {
                    revealed_opponent: Some(choice),
                    status: if old(self).revealed_creator is Some {
                        MatchStatus::ReadyToSettle
                    } else {
                        MatchStatus::WaitingForReveal
                    },
                    ..*old(self)
                })
            }),
    {
        if self.is_finalized() {
            return Err(RpsError::MatchAlreadyFinalized);
        }
        if !matches!(self.status, MatchStatus::WaitingForReveal) {
            return Err(RpsError::InvalidMatchStatus);
        }
        if now > self.reveal_deadline {
            return Err(RpsError::DeadlinePassed);
        }
        let is_creator = player == self.creator;
        let is_opponent = match self.opponent {
            Some(o) => o == player,
            None => false,
        };
        if !is_creator && !is_opponent {
            return Err(RpsError::NotParticipant);
        }
        let expected = create_commitment_hash(choice, salt, player, nonce);
        if is_creator {
            if !commitment::bytes32_eq(&self.commitment_creator, &expected) {
                return Err(RpsError::InvalidCommitment);
            }
            if self.revealed_creator.is_some() {
                return Err(RpsError::AlreadyRevealed);
            }
            self.revealed_creator = Some(choice);
        } else {
            if !commitment::bytes32_eq(&self.commitment_opponent, &expected) {
                return Err(RpsError::InvalidCommitment);
            }
            if self.revealed_opponent.is_some() {
                return Err(RpsError::AlreadyRevealed);
            }
            self.revealed_opponent = Some(choice);
        }
        if self.revealed_creator.is_some() && self.revealed_opponent.is_some() {
            self.status = MatchStatus::ReadyToSettle;
        }
        Ok(())
    }
}

/// The pooled stake of a fully joined match.
pub open spec fn spec_total_pot(m: Match) -> int {
    2 * m.bet_amount
}

/// The fee taken on settlement, in basis points of the pot.
pub open spec fn spec_fee_amount(m: Match) -> int {
    spec_total_pot(m) * m.fee_bps / 10000
}

/// The penalty taken from a party that failed to reveal, in basis points of
/// the pot.
pub open spec fn spec_reveal_penalty(m: Match) -> int {
    spec_total_pot(m) * REVEAL_PENALTY_BPS / 10000
}

/// The payouts of a settled match: the winner takes the pot minus the fee,
/// which goes to the fee collector; a tie refunds both stakes with no fee.
pub open spec fn spec_settle_payouts(m: Match, fee_collector: u64) -> Seq<Payout> {
    let pay = ((spec_total_pot(m) - spec_fee_amount(m)) as u64);
    let fee = (spec_fee_amount(m) as u64);
    match spec_winner(m.revealed_creator.unwrap(), m.revealed_opponent.unwrap()) {
        GameResult::CreatorWins => if fee > 0 {
            seq![
                (Payout { player: m.creator, amount: pay, reason: PayoutReason::Winner }),
                (Payout { player: fee_collector, amount: fee, reason: PayoutReason::Penalty }),
            ]
        } else {
            seq![(Payout { player: m.creator, amount: pay, reason: PayoutReason::Winner })]
        },
        GameResult::OpponentWins => if fee > 0 {
            seq![
                (Payout {
                    player: m.opponent.unwrap(),
                    amount: pay,
                    reason: PayoutReason::Winner,
                }),
                (Payout { player: fee_collector, amount: fee, reason: PayoutReason::Penalty }),
            ]
        } else {
            seq![
                (Payout {
                    player: m.opponent.unwrap(),
                    amount: pay,
                    reason: PayoutReason::Winner,
                }),
            ]
        },
        GameResult::Tie => seq![
            (Payout { player: m.creator, amount: m.bet_amount, reason: PayoutReason::Tie }),
            (Payout {
                player: m.opponent.unwrap(),
                amount: m.bet_amount,
                reason: PayoutReason::Tie,
            }),
        ],
    }
}

impl Match {
    /// Settles a match once both parties have revealed: judges the choices,
    /// marks the match settled before any payout is handed out, and returns
    /// the payout set, which sums to the pot exactly. Settling twice fails:
    /// the second call finds the match finalized and changes nothing.
    pub fn settle(&mut self, fee_collector: u64) -> (r: Result<Vec<Payout>, RpsError>)
        requires
            old(self).wf(),
        ensures
            final(self).wf(),
            (r matches Ok(ps)) <==> old(self).status == MatchStatus::ReadyToSettle,
            r matches Err(e) ==> *final(self) == *old(self) && e == (
            if old(self).spec_finalized() {
                RpsError::MatchAlreadyFinalized
            } else {
                RpsError::InvalidMatchStatus
            }),
            r matches Ok(ps) ==> *final(self) == (Match {
                status: MatchStatus::Settled,
                ..*old(self)
            }) && ps@ == spec_settle_payouts(*old(self), fee_collector) && sum_amounts(ps@)
                == spec_total_pot(*old(self)),
    {
        if self.is_finalized() {
            return Err(RpsError::MatchAlreadyFinalized);
        }
        if !matches!(self.status, MatchStatus::ReadyToSettle) {
            return Err(RpsError::InvalidMatchStatus);
        }
        let creator_choice = match self.revealed_creator {
            Some(c) => c,
            None => {
                return Err(RpsError::CreatorNotRevealed);
            },
        };
        let opponent_choice = match self.revealed_opponent {
            Some(c) => c,
            None => {
                return Err(RpsError::OpponentNotRevealed);
            },
        };
        let opponent = match self.opponent {
            Some(o) => o,
            None => {
                return Err(RpsError::InvalidOpponent);
            },
        };
        let bet_amount = self.bet_amount;
        let total_bet = bet_amount * 2;
        let fee_bps64 = self.fee_bps as u64;
        proof {
            assert(total_bet * fee_bps64 <= 200_000_000_000 * 500) by (nonlinear_arith)
                requires
                    total_bet <= 200_000_000_000,
                    fee_bps64 <= 500,
            ;
        }
        let fee_amount = total_bet * fee_bps64 / 10000;
        proof {
            assert(total_bet * fee_bps64 / 10000 <= total_bet) by (nonlinear_arith)
                requires
                    fee_bps64 <= 500,
            ;
        }
        let payout_amount = total_bet - fee_amount;
        let result = determine_winner(creator_choice, opponent_choice);

        // Mark as settled before any payout leaves the vault, so that a
        // repeated settlement attempt observes the terminal state.
        self.status = MatchStatus::Settled;

        let mut payouts: Vec<Payout> = Vec::new();
        match result {
            GameResult::CreatorWins => {
                payouts.push(
                    Payout {
                        player: self.creator,
                        amount: payout_amount,
                        reason: PayoutReason::Winner,
                    },
                );
                if fee_amount > 0 {
                    payouts.push(
                        Payout {
                            player: fee_collector,
                            amount: fee_amount,
                            reason: PayoutReason::Penalty,
                        },
                    );
                }
            },
            GameResult::OpponentWins => {
                payouts.push(
                    Payout {
                        player: opponent,
                        amount: payout_amount,
                        reason: PayoutReason::Winner,
                    },
                );
                if fee_amount > 0 {
                    payouts.push(
                        Payout {
                            player: fee_collector,
                            amount: fee_amount,
                            reason: PayoutReason::Penalty,
                        },
                    );
                }
            },
            GameResult::Tie => {
                payouts.push(
                    Payout { player: self.creator, amount: bet_amount, reason: PayoutReason::Tie },
                );
                payouts.push(
                    Payout { player: opponent, amount: bet_amount, reason: PayoutReason::Tie },
                );
            },
        }
        proof {
            assert(payouts@ =~= spec_settle_payouts(*old(self), fee_collector));
            lemma_sum_amounts_small(payouts@);
        }
        Ok(payouts)
    }

    /// Cancels an open match: only the creator may cancel, and only while no
    /// opponent has joined. The creator's stake is refunded in full.
    pub fn cancel_match(&mut self, caller: u64) -> (r: Result<Vec<Payout>, RpsError>)
        requires
            old(self).wf(),
        ensures
            final(self).wf(),
            (r matches Ok(ps)) <==> (!old(self).spec_finalized() && caller == old(self).creator
                && old(self).status == MatchStatus::WaitingForOpponent),
            r matches Err(e) ==> *final(self) == *old(self) && e == (
            if old(self).spec_finalized() {
                RpsError::MatchAlreadyFinalized
            } else if caller != old(self).creator {
                RpsError::OnlyCreatorCanCancel
            } else {
                RpsError::CannotCancelJoinedMatch
            }),
            r matches Ok(ps) ==> *final(self) == (Match {
                status: MatchStatus::Cancelled,
                ..*old(self)
            }) && ps@ == seq![
                (Payout {
                    player: old(self).creator,
                    amount: old(self).bet_amount,
                    reason: PayoutReason::Refund,
                }),
            ] && sum_amounts(ps@) == old(self).bet_amount,
    {
        if self.is_finalized() {
            return Err(RpsError::MatchAlreadyFinalized);
        }
        if caller != self.creator {
            return Err(RpsError::OnlyCreatorCanCancel);
        }
        if !matches!(self.status, MatchStatus::WaitingForOpponent) {
            return Err(RpsError::CannotCancelJoinedMatch);
        }
        self.status = MatchStatus::Cancelled;
        let mut payouts: Vec<Payout> = Vec::new();
        payouts.push(
            Payout { player: self.creator, amount: self.bet_amount, reason: PayoutReason::Refund },
        );
        proof {
            lemma_sum_amounts_small(payouts@);
        }
        Ok(payouts)
    }
}

/// The payouts when exactly one party revealed and the deadline elapsed: the
/// revealed party wins the pot minus the reveal penalty, which goes to the
/// protocol sink.
pub open spec fn spec_timeout_winner_payouts(m: Match, winner: u64, fee_collector: u64) -> Seq<
    Payout,
> {
    let pen = spec_reveal_penalty(m);
    let win_amount = ((spec_total_pot(m) - pen) as u64);
    if pen > 0 {
        seq![
            (Payout { player: winner, amount: win_amount, reason: PayoutReason::Winner }),
            (Payout { player: fee_collector, amount: (pen as u64), reason: PayoutReason::Penalty }),
        ]
    } else {
        seq![(Payout { player: winner, amount: win_amount, reason: PayoutReason::Winner })]
    }
}

/// The payouts when neither party revealed: each is refunded their stake
/// minus half the penalty, and what remains of the pot goes to the protocol
/// sink so that no value vanishes.
pub open spec fn spec_timeout_both_payouts(m: Match, fee_collector: u64) -> Seq<Payout> {
    let pen = spec_reveal_penalty(m);
    let refund = ((m.bet_amount - pen / 2) as u64);
    let leftover = spec_total_pot(m) - 2 * refund;
    if leftover > 0 {
        seq![
            (Payout { player: m.creator, amount: refund, reason: PayoutReason::Refund }),
            (Payout { player: m.opponent.unwrap(), amount: refund, reason: PayoutReason::Refund }),
            (Payout {
                player: fee_collector,
                amount: (leftover as u64),
                reason: PayoutReason::Penalty,
            }),
        ]
    } else {
        seq![
            (Payout { player: m.creator, amount: refund, reason: PayoutReason::Refund }),
            (Payout { player: m.opponent.unwrap(), amount: refund, reason: PayoutReason::Refund }),
        ]
    }
}

impl Match {
    /// Resolves a match whose active phase deadline has elapsed. An open
    /// match past its join deadline refunds the creator. Past the reveal
    /// deadline, a party that failed to reveal forfeits to the other, minus a
    /// penalty routed to `fee_collector`; if neither acted, both are refunded
    /// their stake less half the penalty. If both parties did act, the match
    /// must settle normally and the timeout call is rejected. Every payout
    /// set sums to what was staked.
    pub fn timeout_match(&mut self, now: i64, fee_collector: u64) -> (r: Result<
        (TimeoutType, Option<u64>, Vec<Payout>),
        RpsError,
    >)
        requires
            old(self).wf(),
        ensures
            final(self).wf(),
            r matches Err(e) ==> *final(self) == *old(self),
            r matches Ok(t) ==> *final(self) == (Match {
                status: MatchStatus::TimedOut,
                ..*old(self)
            }),
            old(self).spec_finalized() ==> r == Err::<(TimeoutType, Option<u64>, Vec<Payout>), RpsError>(
                RpsError::MatchAlreadyFinalized,
            ),
            !old(self).spec_finalized() && old(self).status != MatchStatus::WaitingForOpponent
                && old(self).status != MatchStatus::WaitingForReveal ==> r == Err::<
                (TimeoutType, Option<u64>, Vec<Payout>),
                RpsError,
            >(RpsError::CannotTimeout),
            old(self).status == MatchStatus::WaitingForOpponent && now <= old(self).join_deadline
                ==> r == Err::<(TimeoutType, Option<u64>, Vec<Payout>), RpsError>(
                RpsError::DeadlineNotPassed,
            ),
            old(self).status == MatchStatus::WaitingForOpponent && now > old(self).join_deadline
                ==> (r matches Ok(t) && t.0 == TimeoutType::NoOpponent && t.1 is None && t.2@
                == seq![
                (Payout {
                    player: old(self).creator,
                    amount: old(self).bet_amount,
                    reason: PayoutReason::Refund,
                }),
            ] && sum_amounts(t.2@) == old(self).bet_amount),
            old(self).status == MatchStatus::WaitingForReveal && now <= old(self).reveal_deadline
                ==> r == Err::<(TimeoutType, Option<u64>, Vec<Payout>), RpsError>(
                RpsError::DeadlineNotPassed,
            ),
            old(self).status == MatchStatus::WaitingForReveal && now > old(self).reveal_deadline
                && old(self).revealed_creator is Some && old(self).revealed_opponent is Some ==> r
                == Err::<(TimeoutType, Option<u64>, Vec<Payout>), RpsError>(
                RpsError::ShouldSettleNotTimeout,
            ),
            old(self).status == MatchStatus::WaitingForReveal && now > old(self).reveal_deadline
                && old(self).revealed_creator is Some && old(self).revealed_opponent is None ==> (
            r matches Ok(t) && t.0 == TimeoutType::OpponentNoReveal && t.1 == Some(
                old(self).creator,
            ) && t.2@ == spec_timeout_winner_payouts(*old(self), old(self).creator, fee_collector)
                && sum_amounts(t.2@) == spec_total_pot(*old(self))),
            old(self).status == MatchStatus::WaitingForReveal && now > old(self).reveal_deadline
                && old(self).revealed_creator is None && old(self).revealed_opponent is Some ==> (
            r matches Ok(t) && t.0 == TimeoutType::CreatorNoReveal && t.1 == Some(
                old(self).opponent.unwrap(),
            ) && t.2@ == spec_timeout_winner_payouts(
                *old(self),
                old(self).opponent.unwrap(),
                fee_collector,
            ) && sum_amounts(t.2@) == spec_total_pot(*old(self))),
            old(self).status == MatchStatus::WaitingForReveal && now > old(self).reveal_deadline
                && old(self).revealed_creator is None && old(self).revealed_opponent is None ==> (
            r matches Ok(t) && t.0 == TimeoutType::BothNoReveal && t.1 is None && t.2@
                == spec_timeout_both_payouts(*old(self), fee_collector) && sum_amounts(t.2@)
                == spec_total_pot(*old(self))),
    {
        if self.is_finalized() {
            return Err(RpsError::MatchAlreadyFinalized);
        }
        let bet_amount = self.bet_amount;
        match self.status {
            MatchStatus::WaitingForOpponent => {
                if now <= self.join_deadline {
                    return Err(RpsError::DeadlineNotPassed);
                }
                // No opponent ever staked: refund the creator in full.
                self.status = MatchStatus::TimedOut;
                let mut payouts: Vec<Payout> = Vec::new();
                payouts.push(
                    Payout {
                        player: self.creator,
                        amount: bet_amount,
                        reason: PayoutReason::Refund,
                    },
                );
                proof {
                    lemma_sum_amounts_small(payouts@);
                }
                Ok((TimeoutType::NoOpponent, None, payouts))
            },
            MatchStatus::WaitingForReveal => {
                if now <= self.reveal_deadline {
                    return Err(RpsError::DeadlineNotPassed);
                }
                let opponent = match self.opponent {
                    Some(o) => o,
                    None => {
                        return Err(RpsError::InvalidOpponent);
                    },
                };
                let creator_revealed = self.revealed_creator.is_some();
                let opponent_revealed = self.revealed_opponent.is_some();
                let total_bet = bet_amount * 2;
                proof {
                    assert(total_bet * REVEAL_PENALTY_BPS <= 200_000_000_000 * 500)
                        by (nonlinear_arith)
                        requires
                            total_bet <= 200_000_000_000,
                    ;
                }
                let penalty_amount = total_bet * REVEAL_PENALTY_BPS / 10000;
                proof {
                    assert(total_bet * REVEAL_PENALTY_BPS / 10000 <= total_bet)
                        by (nonlinear_arith);
                }
                let winner_amount = total_bet - penalty_amount;
                if creator_revealed && opponent_revealed {
                    // Both parties acted: the match must settle normally.
                    return Err(RpsError::ShouldSettleNotTimeout);
                }
                self.status = MatchStatus::TimedOut;
                if creator_revealed {
                    // The opponent failed to reveal and forfeits.
                    let mut payouts: Vec<Payout> = Vec::new();
                    payouts.push(
                        Payout {
                            player: self.creator,
                            amount: winner_amount,
                            reason: PayoutReason::Winner,
                        },
                    );
                    if penalty_amount > 0 {
                        payouts.push(
                            Payout {
                                player: fee_collector,
                                amount: penalty_amount,
                                reason: PayoutReason::Penalty,
                            },
                        );
                    }
                    proof {
                        assert(payouts@ =~= spec_timeout_winner_payouts(
                            *old(self),
                            old(self).creator,
                            fee_collector,
                        ));
                        lemma_sum_amounts_small(payouts@);
                    }
                    Ok((TimeoutType::OpponentNoReveal, Some(self.creator), payouts))
                } else if opponent_revealed {
                    // The creator failed to reveal and forfeits.
                    let mut payouts: Vec<Payout> = Vec::new();
                    payouts.push(
                        Payout {
                            player: opponent,
                            amount: winner_amount,
                            reason: PayoutReason::Winner,
                        },
                    );
                    if penalty_amount > 0 {
                        payouts.push(
                            Payout {
                                player: fee_collector,
                                amount: penalty_amount,
                                reason: PayoutReason::Penalty,
                            },
                        );
                    }
                    proof {
                        assert(payouts@ =~= spec_timeout_winner_payouts(
                            *old(self),
                            opponent,
                            fee_collector,
                        ));
                        lemma_sum_amounts_small(payouts@);
                    }
                    Ok((TimeoutType::CreatorNoReveal, Some(opponent), payouts))
                } else {
                    // Neither party acted: a no-fault refund, each stake less
                    // half the penalty; the remainder goes to the sink.
                    proof {
                        assert(penalty_amount / 2 <= bet_amount) by (nonlinear_arith)
                            requires
                                penalty_amount <= 2 * bet_amount,
                        ;
                    }
                    let refund_amount = bet_amount - penalty_amount / 2;
                    let leftover = total_bet - 2 * refund_amount;
                    let mut payouts: Vec<Payout> = Vec::new();
                    payouts.push(
                        Payout {
                            player: self.creator,
                            amount: refund_amount,
                            reason: PayoutReason::Refund,
                        },
                    );
                    payouts.push(
                        Payout {
                            player: opponent,
                            amount: refund_amount,
                            reason: PayoutReason::Refund,
                        },
                    );
                    if leftover > 0 {
                        payouts.push(
                            Payout {
                                player: fee_collector,
                                amount: leftover,
                                reason: PayoutReason::Penalty,
                            },
                        );
                    }
                    proof {
                        assert(payouts@ =~= spec_timeout_both_payouts(*old(self), fee_collector));
                        lemma_sum_amounts_small(payouts@);
                    }
                    Ok((TimeoutType::BothNoReveal, None, payouts))
                }
            },
            _ => Err(RpsError::CannotTimeout),
        }
    }
}

} // verus!
