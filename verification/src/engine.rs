//! The universal match engine: one match record for every game kind, with a
//! closed dispatch over the known kinds. The engine sequences the phases
//! (waiting for an opponent, in progress, completed) and computes the payout
//! set on settlement; this engine variant charges no fee, so the winner takes
//! the whole pot and a draw refunds both stakes.

use vstd::prelude::*;
use crate::payout::{Payout, PayoutReason, sum_amounts};
use crate::rounds::GameResult;
use crate::rps::{RockPaperScissors, RPSChoice, spec_choice_from_byte, spec_round_result};
use crate::dice::{DiceGame, spec_dice_winner};

verus! {

/// The largest game-state buffer a match may hold.
pub const MAX_GAME_STATE_SIZE: usize = 256;

/// The largest serialized round-manager snapshot a match may hold.
pub const MAX_ROUND_STATE_SIZE: usize = 128;

/// The default move deadline, in seconds from creation or start.
pub const DEFAULT_TIMEOUT_SECONDS: i64 = 300;

/// The game kinds the platform knows. Dispatch over them is a closed match:
/// no open-ended loading of game code into the settlement path.
#[derive(Clone, Copy, PartialEq, Eq, Structural, Debug)]
pub enum GameType {
    RockPaperScissors,
    Dice,
    CoinFlip,
    HighCard,
    TicTacToe,
    Slots,
    Poker,
    Blackjack,
    Custom(u16),
}

/// The wire encoding of a game kind: the eight known kinds are 0..=7 and a
/// custom kind `id` is `1000 + id`.
pub open spec fn spec_game_type_u16(t: GameType) -> int {
    match t {
        GameType::RockPaperScissors => 0,
        GameType::Dice => 1,
        GameType::CoinFlip => 2,
        GameType::HighCard => 3,
        GameType::TicTacToe => 4,
        GameType::Slots => 5,
        GameType::Poker => 6,
        GameType::Blackjack => 7,
        GameType::Custom(id) => 1000 + id,
    }
}

/// The game kind a wire value decodes to, if any: 8..=999 is reserved.
pub open spec fn spec_game_type_from_u16(value: u16) -> Option<GameType> {
    if value == 0 {
        Some(GameType::RockPaperScissors)
    } else if value == 1 {
        Some(GameType::Dice)
    } else if value == 2 {
        Some(GameType::CoinFlip)
    } else if value == 3 {
        Some(GameType::HighCard)
    } else if value == 4 {
        Some(GameType::TicTacToe)
    } else if value == 5 {
        Some(GameType::Slots)
    } else if value == 6 {
        Some(GameType::Poker)
    } else if value == 7 {
        Some(GameType::Blackjack)
    } else if value >= 1000 {
        Some(GameType::Custom((value - 1000) as u16))
    } else {
        None
    }
}

impl GameType {
    /// Encodes this kind for the wire. A custom id above `u16::MAX - 1000`
    /// has no encoding.
    pub fn to_u16(self) -> (r: u16)
        requires
            self matches GameType::Custom(id) ==> id <= u16::MAX - 1000,
        ensures
            r == spec_game_type_u16(self),
    {
        match self {
            GameType::RockPaperScissors => 0,
            GameType::Dice => 1,
            GameType::CoinFlip => 2,
            GameType::HighCard => 3,
            GameType::TicTacToe => 4,
            GameType::Slots => 5,
            GameType::Poker => 6,
            GameType::Blackjack => 7,
            GameType::Custom(id) => 1000 + id,
        }
    }

    /// Decodes a wire value; the reserved band 8..=999 is rejected.
    pub fn from_u16(value: u16) -> (r: Result<GameType, UniversalGameError>)
        ensures
            r == (match spec_game_type_from_u16(value) {
                Some(t) => Ok::<GameType, UniversalGameError>(t),
                None => Err::<GameType, UniversalGameError>(UniversalGameError::InvalidGameType),
            }),
    {
        match value {
            0 => Ok(GameType::RockPaperScissors),
            1 => Ok(GameType::Dice),
            2 => Ok(GameType::CoinFlip),
            3 => Ok(GameType::HighCard),
            4 => Ok(GameType::TicTacToe),
            5 => Ok(GameType::Slots),
            6 => Ok(GameType::Poker),
            7 => Ok(GameType::Blackjack),
            _ => {
                if value >= 1000 {
                    Ok(GameType::Custom(value - 1000))
                } else {
                    Err(UniversalGameError::InvalidGameType)
                }
            },
        }
    }
}

/// Wire round trip: decoding the encoding of any encodable game kind gives
/// the kind back.
pub proof fn lemma_game_type_round_trip(t: GameType)
    requires
        t matches GameType::Custom(id) ==> id <= u16::MAX - 1000,
    ensures
        spec_game_type_from_u16(spec_game_type_u16(t) as u16) == Some(t),
{
}

/// Per-kind match parameters, validated at creation.
#[derive(Clone, Copy, Debug)]
pub struct GameConfig {
    pub max_players: u8,
    pub min_bet: u64,
    pub max_bet: u64,
    pub rounds: u8,
    pub custom_params: [u8; 16],
}

#[derive(Clone, Copy, PartialEq, Eq, Structural, Debug)]
pub enum MatchStatus {
    WaitingForOpponent,
    InProgress,
    Completed,
    Cancelled,
    Disputed,
}

#[derive(Clone, Copy, PartialEq, Eq, Structural, Debug)]
pub enum UniversalGameError {
    InvalidGameType,
    MatchAlreadyStarted,
    MatchNotFound,
    InsufficientBet,
    BetTooLarge,
    GameNotActive,
    Unauthorized,
    MatchTimeout,
    InvalidGameState,
    RegistryFull,
    MatchNotCompleted,
    CannotCancel,
    CannotDispute,
    NotDisputed,
    InsufficientFunds,
    ArithmeticOverflow,
    CustomError,
}

/// One match of any game kind. `game_state` is an opaque bounded buffer
/// whose schema belongs to the active game; `round_state` is the serialized
/// round-manager snapshot of a multi-round match.
#[derive(Debug)]
pub struct UniversalMatch {
    pub match_id: u64,
    pub game_type: GameType,
    pub creator: u64,
    pub opponent: Option<u64>,
    pub bet_amount: u64,
    pub total_pot: u64,
    pub status: MatchStatus,
    pub game_state: Vec<u8>,
    pub round_state: Vec<u8>,
    pub winner: Option<u64>,
    pub created_at: i64,
    pub started_at: Option<i64>,
    pub ended_at: Option<i64>,
    pub timeout_seconds: i64,
    pub game_config: GameConfig,
}

impl UniversalMatch {
    /// Well-formedness: the pot is exactly twice the stake, the buffers stay
    /// within their capacity, and each status holds the fields it implies.
    pub open spec fn wf(self) -> bool {
        &&& self.total_pot == 2 * self.bet_amount
        &&& self.timeout_seconds >= 0
        &&& (self.opponent matches Some(o) ==> o != self.creator)
        &&& (self.status == MatchStatus::WaitingForOpponent ==> self.opponent is None)
        &&& (self.status == MatchStatus::InProgress ==> self.opponent is Some
            && self.started_at is Some)
        &&& self.game_state.len() <= MAX_GAME_STATE_SIZE
        &&& self.round_state.len() <= MAX_ROUND_STATE_SIZE
    }

    /// Whether the active phase deadline has elapsed at `now`.
    pub open spec fn spec_can_timeout(self, now: i64) -> bool {
        match self.status {
            MatchStatus::WaitingForOpponent => now > self.created_at + self.timeout_seconds,
            MatchStatus::InProgress => match self.started_at {
                Some(s) => now > s + self.timeout_seconds,
                None => false,
            },
            _ => false,
        }
    }

    /// Whether the match can be timed out at `now`: an open match past its
    /// join deadline, or a running match past its move deadline.
    pub fn can_timeout(&self, now: i64) -> (r: bool)
        ensures
            r == self.spec_can_timeout(now),
    {
        match self.status {
            MatchStatus::WaitingForOpponent => {
                (now as i128) > (self.created_at as i128) + (self.timeout_seconds as i128)
            },
            MatchStatus::InProgress => {
                match self.started_at {
                    Some(s) => (now as i128) > (s as i128) + (self.timeout_seconds as i128),
                    None => false,
                }
            },
            _ => false,
        }
    }

    /// The amount the winner receives: the whole pot, as this engine charges
    /// no fee.
    pub fn calculate_winner_amount(&self) -> (r: u64)
        ensures
            r == self.total_pot,
    {
        self.total_pot
    }
}

/// Creates a match of the given kind: the creator stakes `bet_amount`, which
/// must lie within the config's range, and the pot is fixed at twice the
/// stake. A stake above half the integer range is rejected rather than let
/// the pot wrap.
pub fn create_universal_match(
    match_id: u64,
    game_type: GameType,
    creator: u64,
    bet_amount: u64,
    game_config: GameConfig,
    now: i64,
) -> (r: Result<UniversalMatch, UniversalGameError>)
    requires
        now >= 0,
    ensures
        (r matches Ok(m)) <==> (game_config.min_bet <= bet_amount <= game_config.max_bet
            && bet_amount <= u64::MAX / 2),
        bet_amount < game_config.min_bet ==> r == Err::<UniversalMatch, UniversalGameError>(
            UniversalGameError::InsufficientBet,
        ),
        bet_amount >= game_config.min_bet && bet_amount > game_config.max_bet ==> r == Err::<
            UniversalMatch,
            UniversalGameError,
        >(UniversalGameError::BetTooLarge),
        game_config.min_bet <= bet_amount <= game_config.max_bet && bet_amount > u64::MAX / 2
            ==> r == Err::<UniversalMatch, UniversalGameError>(
            UniversalGameError::ArithmeticOverflow,
        ),
        r matches Ok(m) ==> m.wf() && m.match_id == match_id && m.game_type == game_type
            && m.creator == creator && m.opponent is None && m.bet_amount == bet_amount
            && m.total_pot == 2 * bet_amount && m.status == MatchStatus::WaitingForOpponent
            && m.game_state@ == Seq::<u8>::empty() && m.round_state@ == Seq::<u8>::empty()
            && m.winner is None && m.created_at == now && m.started_at is None && m.ended_at
            is None && m.timeout_seconds == DEFAULT_TIMEOUT_SECONDS,
{
    if bet_amount < game_config.min_bet {
        return Err(UniversalGameError::InsufficientBet);
    }
    if bet_amount > game_config.max_bet {
        return Err(UniversalGameError::BetTooLarge);
    }
    if bet_amount > u64::MAX / 2 {
        return Err(UniversalGameError::ArithmeticOverflow);
    }
    Ok(
        UniversalMatch {
            match_id,
            game_type,
            creator,
            opponent: None,
            bet_amount,
            total_pot: bet_amount * 2,
            status: MatchStatus::WaitingForOpponent,
            game_state: Vec::new(),
            round_state: Vec::new(),
            winner: None,
            created_at: now,
            started_at: None,
            ended_at: None,
            timeout_seconds: DEFAULT_TIMEOUT_SECONDS,
            game_config,
        },
    )
}

impl UniversalMatch {
    /// An opponent joins an open match before its join deadline, staking the
    /// same amount; the match then starts.
    pub fn join_match(&mut self, opponent: u64, now: i64) -> (r: Result<(), UniversalGameError>)
        requires
            old(self).wf(),
        ensures
            final(self).wf(),
            (r matches Ok(u)) <==> (old(self).status == MatchStatus::WaitingForOpponent && !old(
                self,
            ).spec_can_timeout(now) && opponent != old(self).creator),
            r matches Err(e) ==> *final(self) == *old(self) && e == (
            if old(self).status != MatchStatus::WaitingForOpponent {
                UniversalGameError::MatchAlreadyStarted
            } else if old(self).spec_can_timeout(now) {
                UniversalGameError::MatchTimeout
            } else {
                UniversalGameError::Unauthorized
            }),
            r matches Ok(u) ==> *final(self) == (UniversalMatch {
                opponent: Some(opponent),
                status: MatchStatus::InProgress,
                started_at: Some(now),
                ..*old(self)
            }),
    {
        if !matches!(self.status, MatchStatus::WaitingForOpponent) {
            return Err(UniversalGameError::MatchAlreadyStarted);
        }
        if self.can_timeout(now) {
            return Err(UniversalGameError::MatchTimeout);
        }
        if opponent == self.creator {
            return Err(UniversalGameError::Unauthorized);
        }
        self.opponent = Some(opponent);
        self.status = MatchStatus::InProgress;
        self.started_at = Some(now);
        Ok(())
    }

    /// Whether a move payload is valid for this match's game kind.
    pub open spec fn spec_move_valid(self, move_data: Seq<u8>) -> bool {
        match self.game_type {
            GameType::RockPaperScissors => move_data.len() >= 1 && move_data[0] <= 2,
            GameType::Dice => move_data.len() >= 2 && 1 <= move_data[0] <= 6 && 1 <= move_data[1]
                <= 6,
            _ => false,
        }
    }

    /// A participant submits a move while the match runs and its deadline
    /// has not elapsed. The move is validated by the active game kind and
    /// appended to the game state; a move that would overflow the bounded
    /// buffer is rejected outright, never truncated.
    pub fn submit_move(&mut self, player: u64, move_data: &Vec<u8>, now: i64) -> (r: Result<
        (),
        UniversalGameError,
    >)
        requires
            old(self).wf(),
        ensures
            final(self).wf(),
            (r matches Ok(u)) <==> (old(self).status == MatchStatus::InProgress && !old(
                self,
            ).spec_can_timeout(now) && (player == old(self).creator || old(self).opponent == Some(
                player,
            )) && old(self).spec_move_valid(move_data@) && old(self).game_state.len()
                + move_data.len() <= MAX_GAME_STATE_SIZE),
            r matches Ok(u) ==> *final(self) == (UniversalMatch {
                game_state: final(self).game_state,
                ..*old(self)
            }) && final(self).game_state@ == old(self).game_state@ + move_data@,
            r matches Err(e) ==> *final(self) == *old(self) && e == (
            if old(self).status != MatchStatus::InProgress {
                UniversalGameError::InvalidGameState
            } else if old(self).spec_can_timeout(now) {
                UniversalGameError::MatchTimeout
            } else if player != old(self).creator && old(self).opponent != Some(player) {
                UniversalGameError::Unauthorized
            } else if !old(self).spec_move_valid(move_data@) {
                (match old(self).game_type {
                    GameType::RockPaperScissors => UniversalGameError::InvalidGameState,
                    GameType::Dice => UniversalGameError::InvalidGameState,
                    _ => UniversalGameError::InvalidGameType,
                })
            } else {
                UniversalGameError::InvalidGameState
            }),
    {
        if !matches!(self.status, MatchStatus::InProgress) {
            return Err(UniversalGameError::InvalidGameState);
        }
        if self.can_timeout(now) {
            return Err(UniversalGameError::MatchTimeout);
        }
        let is_participant = player == self.creator || (match self.opponent {
            Some(o) => o == player,
            None => false,
        });
        if !is_participant {
            return Err(UniversalGameError::Unauthorized);
        }
        let valid = match self.game_type {
            GameType::RockPaperScissors => {
                let rps = RockPaperScissors;
                rps.validate_move(move_data).is_ok()
            },
            GameType::Dice => {
                let dice = DiceGame;
                dice.validate_move(move_data).is_ok()
            },
            _ => {
                return Err(UniversalGameError::InvalidGameType);
            },
        };
        if !valid {
            return Err(UniversalGameError::InvalidGameState);
        }
        if move_data.len() > MAX_GAME_STATE_SIZE || self.game_state.len() > MAX_GAME_STATE_SIZE
            - move_data.len() {
            return Err(UniversalGameError::InvalidGameState);
        }
        let mut i: usize = 0;
        while i < move_data.len()
            invariant
                i <= move_data.len(),
                self.game_state@ == old(self).game_state@ + move_data@.subrange(0, i as int),
                *self == (UniversalMatch { game_state: self.game_state, ..*old(self) }),
                old(self).game_state.len() + move_data.len() <= MAX_GAME_STATE_SIZE,
            decreases move_data.len() - i,
        {
            self.game_state.push(move_data[i]);
            proof {
                assert(old(self).game_state@ + move_data@.subrange(0, i as int) + seq![
                    move_data@[i as int],
                ] =~= old(self).game_state@ + move_data@.subrange(0, i + 1));
            }
            i = i + 1;
        }
        proof {
            assert(old(self).game_state@ + move_data@.subrange(0, move_data@.len() as int)
                =~= old(self).game_state@ + move_data@);
        }
        Ok(())
    }

    /// The judged result of the match under its game kind, if the game state
    /// is complete and well-formed.
    pub open spec fn spec_judged_result(self) -> Option<GameResult> {
        match self.game_type {
            GameType::RockPaperScissors => {
                let gs = self.game_state@;
                if gs.len() >= 2 && gs[0] <= 2 && gs[1] <= 2 {
                    Some(
                        spec_round_result(
                            spec_choice_from_byte(gs[0]),
                            spec_choice_from_byte(gs[1]),
                        ),
                    )
                } else {
                    None
                }
            },
            GameType::Dice => {
                let gs = self.game_state@;
                if gs.len() >= 4 && (forall|i: int| 0 <= i < 4 ==> 1 <= #[trigger] gs[i] <= 6) {
                    Some(spec_dice_winner(gs[0], gs[1], gs[2], gs[3]))
                } else {
                    None
                }
            },
            _ => None,
        }
    }

    /// The payout set of a judged match under this fee-free engine: the
    /// winner takes the whole pot; a draw refunds both stakes.
    pub open spec fn spec_settle_payouts(self, result: GameResult) -> Seq<Payout> {
        match result {
            GameResult::Player1Wins => seq![
                (Payout {
                    player: self.creator,
                    amount: self.total_pot,
                    reason: PayoutReason::Winner,
                }),
            ],
            GameResult::Player2Wins => seq![
                (Payout {
                    player: self.opponent.unwrap(),
                    amount: self.total_pot,
                    reason: PayoutReason::Winner,
                }),
            ],
            _ => seq![
                (Payout {
                    player: self.creator,
                    amount: self.bet_amount,
                    reason: PayoutReason::Tie,
                }),
                (Payout {
                    player: self.opponent.unwrap(),
                    amount: self.bet_amount,
                    reason: PayoutReason::Tie,
                }),
            ],
        }
    }

    /// Settles a running match: judges the game state under the active game
    /// kind, records the winner, marks the match completed before any payout
    /// is handed out, and returns the payout set, which sums to the pot
    /// exactly. A second settlement finds the match completed and fails.
    pub fn settle_match(&mut self, now: i64) -> (r: Result<
        (GameResult, Vec<Payout>),
        UniversalGameError,
    >)
        requires
            old(self).wf(),
        ensures
            final(self).wf(),
            (r matches Ok(t)) <==> (old(self).status == MatchStatus::InProgress && old(
                self,
            ).spec_judged_result() is Some),
            r matches Err(e) ==> *final(self) == *old(self) && e == (
            if old(self).status != MatchStatus::InProgress {
                UniversalGameError::InvalidGameState
            } else if old(self).game_type == GameType::RockPaperScissors || old(self).game_type
                == GameType::Dice {
                UniversalGameError::InvalidGameState
            } else {
                UniversalGameError::InvalidGameType
            }),
            r matches Ok(t) ==> t.0 == old(self).spec_judged_result().unwrap() && *final(self)
                == (UniversalMatch {
                status: MatchStatus::Completed,
                winner: (match t.0 {
                    GameResult::Player1Wins => Some(old(self).creator),
                    GameResult::Player2Wins => old(self).opponent,
                    _ => None,
                }),
                ended_at: Some(now),
                ..*old(self)
            }) && t.1@ == old(self).spec_settle_payouts(t.0) && sum_amounts(t.1@) == old(
                self,
            ).total_pot,
    {
        if !matches!(self.status, MatchStatus::InProgress) {
            return Err(UniversalGameError::InvalidGameState);
        }
        let result = match self.game_type {
            GameType::RockPaperScissors => {
                let rps = RockPaperScissors;
                match rps.determine_winner(self) {
                    Ok(res) => res,
                    Err(_) => {
                        return Err(UniversalGameError::InvalidGameState);
                    },
                }
            },
            GameType::Dice => {
                let dice = DiceGame;
                match dice.determine_winner(self) {
                    Ok(res) => res,
                    Err(_) => {
                        return Err(UniversalGameError::InvalidGameState);
                    },
                }
            },
            _ => {
                return Err(UniversalGameError::InvalidGameType);
            },
        };
        let opponent = match self.opponent {
            Some(o) => o,
            None => {
                return Err(UniversalGameError::InvalidGameState);
            },
        };
        let winner = match result {
            GameResult::Player1Wins => Some(self.creator),
            GameResult::Player2Wins => Some(opponent),
            _ => None,
        };
        self.winner = winner;
        self.status = MatchStatus::Completed;
        self.ended_at = Some(now);
        let mut payouts: Vec<Payout> = Vec::new();
        match result {
            GameResult::Player1Wins => {
                payouts.push(
                    Payout {
                        player: self.creator,
                        amount: self.total_pot,
                        reason: PayoutReason::Winner,
                    },
                );
            },
            GameResult::Player2Wins => {
                payouts.push(
                    Payout { player: opponent, amount: self.total_pot, reason: PayoutReason::Winner },
                );
            },
            _ => {
                payouts.push(
                    Payout {
                        player: self.creator,
                        amount: self.bet_amount,
                        reason: PayoutReason::Tie,
                    },
                );
                payouts.push(
                    Payout { player: opponent, amount: self.bet_amount, reason: PayoutReason::Tie },
                );
            },
        }
        proof {
            assert(payouts@ =~= old(self).spec_settle_payouts(result));
            crate::payout::lemma_sum_amounts_small(payouts@);
        }
        Ok((result, payouts))
    }
}

/// Bounds-checked handling of opaque state buffers. Oversized state is a
/// hard error at write time: trailing state bytes are never silently
/// dropped.
pub struct StateEncoder;

impl StateEncoder {
    /// Accepts state data that fits the round-state buffer; anything larger
    /// is rejected rather than truncated.
    pub fn compress(data: &Vec<u8>) -> (r: Result<Vec<u8>, UniversalGameError>)
        ensures
            (r matches Ok(v)) <==> data@.len() <= MAX_ROUND_STATE_SIZE,
            r matches Ok(v) ==> v@ == data@,
            r matches Err(e) ==> e == UniversalGameError::InvalidGameState,
    {
        if data.len() > MAX_ROUND_STATE_SIZE {
            return Err(UniversalGameError::InvalidGameState);
        }
        let mut out: Vec<u8> = Vec::new();
        let mut i: usize = 0;
        while i < data.len()
            invariant
                i <= data.len(),
                out@ == data@.subrange(0, i as int),
            decreases data.len() - i,
        {
            out.push(data[i]);
            proof {
                assert(data@.subrange(0, i as int).push(data@[i as int]) =~= data@.subrange(
                    0,
                    i + 1,
                ));
            }
            i = i + 1;
        }
        proof {
            assert(data@.subrange(0, data@.len() as int) =~= data@);
        }
        Ok(out)
    }

    /// The stored form is the data itself.
    pub fn decompress(data: &Vec<u8>) -> (r: Result<Vec<u8>, UniversalGameError>)
        ensures
            r matches Ok(v) && v@ == data@,
    {
        let mut out: Vec<u8> = Vec::new();
        let mut i: usize = 0;
        while i < data.len()
            invariant
                i <= data.len(),
                out@ == data@.subrange(0, i as int),
            decreases data.len() - i,
        {
            out.push(data[i]);
            proof {
                assert(data@.subrange(0, i as int).push(data@[i as int]) =~= data@.subrange(
                    0,
                    i + 1,
                ));
            }
            i = i + 1;
        }
        proof {
            assert(data@.subrange(0, data@.len() as int) =~= data@);
        }
        Ok(out)
    }

    /// Whether state data fits the round-state buffer.
    pub fn validate(data: &Vec<u8>) -> (r: bool)
        ensures
            r == (data@.len() <= MAX_ROUND_STATE_SIZE),
    {
        data.len() <= MAX_ROUND_STATE_SIZE
    }
}

} // verus!
