//! The commit-reveal Rock-Paper-Scissors phase machine: each round, both
//! parties post commitments, then reveal their choices against them; the
//! round is judged and scored until one party holds a majority of the
//! configured rounds. The per-match state lives in the match's opaque game
//! state buffer under a fixed codec.

use vstd::prelude::*;
use crate::commitment;
use crate::engine::{UniversalMatch, GameConfig, UniversalGameError};
use crate::payout::{Payout, PayoutReason, sum_amounts, lemma_sum_amounts_small};
use crate::rounds::GameResult;
use crate::rps::{RPSChoice, spec_beats, spec_choice_to_u8, spec_choice_from_byte};

verus! {

/// The serialized size of the phase-machine state.
pub const V2_STATE_SIZE: usize = 75;

/// The phases a commit-reveal match steps through.
#[derive(Clone, Copy, PartialEq, Eq, Structural, Debug)]
pub enum GamePhase {
    Setup,
    Commit,
    Reveal,
    Playing,
    Scoring,
    Finished,
}

/// What processing one move did.
#[derive(PartialEq, Eq, Structural, Debug)]
pub enum MoveResult {
    Accepted,
    GameOver(GameResult),
    PhaseChange(GamePhase),
    WaitingForOpponent,
    InvalidMove,
    RequiresReveal,
}

/// How a timed-out phase is resolved.
#[derive(Clone, Copy, PartialEq, Eq, Structural, Debug)]
pub enum TimeoutResult {
    GameOver(GameResult),
    ForfeitPlayer(u64),
    RefundAll,
    ContinueGame,
}

/// The per-match state of the phase machine.
#[derive(Debug)]
pub struct RPSGameStateV2 {
    pub player1_commitment: Option<[u8; 32]>,
    pub player2_commitment: Option<[u8; 32]>,
    pub player1_revealed: Option<RPSChoice>,
    pub player2_revealed: Option<RPSChoice>,
    pub phase: GamePhase,
    pub round: u8,
    pub max_rounds: u8,
    pub player1_wins: u8,
    pub player2_wins: u8,
}

/// The mathematical model of the phase-machine state.
#[verifier::ext_equal]
pub struct RPSStateModel {
    pub player1_commitment: Option<Seq<u8>>,
    pub player2_commitment: Option<Seq<u8>>,
    pub player1_revealed: Option<RPSChoice>,
    pub player2_revealed: Option<RPSChoice>,
    pub phase: GamePhase,
    pub round: u8,
    pub max_rounds: u8,
    pub player1_wins: u8,
    pub player2_wins: u8,
}

impl View for RPSGameStateV2 {
    type V = RPSStateModel;

    open spec fn view(&self) -> RPSStateModel {
        RPSStateModel {
            player1_commitment: (match self.player1_commitment {
                Some(c) => Some(c@),
                None => None,
            }),
            player2_commitment: (match self.player2_commitment {
                Some(c) => Some(c@),
                None => None,
            }),
            player1_revealed: self.player1_revealed,
            player2_revealed: self.player2_revealed,
            phase: self.phase,
            round: self.round,
            max_rounds: self.max_rounds,
            player1_wins: self.player1_wins,
            player2_wins: self.player2_wins,
        }
    }
}

/// Rounds needed to win: a majority of the configured rounds.
pub open spec fn spec_max_wins(max_rounds: u8) -> int {
    max_rounds / 2 + 1
}

/// Well-formedness of a phase-machine state: at least one configured round,
/// scores within the winning threshold (strictly, while the game runs),
/// 32-byte commitments, and both commitments present in the reveal phase.
pub open spec fn v2_wf(s: RPSStateModel) -> bool {
    &&& s.max_rounds >= 1
    &&& s.round >= 1
    &&& s.player1_wins <= spec_max_wins(s.max_rounds)
    &&& s.player2_wins <= spec_max_wins(s.max_rounds)
    &&& (s.phase != GamePhase::Finished ==> s.player1_wins < spec_max_wins(s.max_rounds)
        && s.player2_wins < spec_max_wins(s.max_rounds))
    &&& (s.player1_commitment matches Some(c) ==> c.len() == 32)
    &&& (s.player2_commitment matches Some(c) ==> c.len() == 32)
    &&& (s.phase == GamePhase::Reveal ==> s.player1_commitment is Some && s.player2_commitment
        is Some)
}

/// The byte of a phase.
pub open spec fn spec_phase_byte(p: GamePhase) -> u8 {
    match p {
        GamePhase::Setup => 0,
        GamePhase::Commit => 1,
        GamePhase::Reveal => 2,
        GamePhase::Playing => 3,
        GamePhase::Scoring => 4,
        GamePhase::Finished => 5,
    }
}

/// The phase a byte in 0..=5 decodes to.
pub open spec fn spec_phase_from_byte(b: u8) -> GamePhase {
    if b == 0 {
        GamePhase::Setup
    } else if b == 1 {
        GamePhase::Commit
    } else if b == 2 {
        GamePhase::Reveal
    } else if b == 3 {
        GamePhase::Playing
    } else if b == 4 {
        GamePhase::Scoring
    } else {
        GamePhase::Finished
    }
}

/// All-zero padding for an absent commitment.
pub open spec fn spec_zeros32() -> Seq<u8> {
    Seq::new(32, |i: int| 0u8)
}

/// A commitment slot on the wire: a presence flag, then the 32 bytes (zeros
/// when absent).
pub open spec fn spec_commit_slot_bytes(c: Option<Seq<u8>>) -> Seq<u8> {
    match c {
        Some(bytes) => seq![1u8] + bytes,
        None => seq![0u8] + spec_zeros32(),
    }
}

/// A revealed-choice slot on the wire: a presence flag, then the choice byte
/// (zero when absent).
pub open spec fn spec_reveal_slot_bytes(r: Option<RPSChoice>) -> Seq<u8> {
    match r {
        Some(c) => seq![1u8, spec_choice_to_u8(c)],
        None => seq![0u8, 0u8],
    }
}

/// The serialized phase-machine state: both commitment slots, both reveal
/// slots, then phase, round, configured rounds and both scores.
pub open spec fn spec_v2_bytes(s: RPSStateModel) -> Seq<u8> {
    spec_commit_slot_bytes(s.player1_commitment) + spec_commit_slot_bytes(s.player2_commitment)
        + spec_reveal_slot_bytes(s.player1_revealed) + spec_reveal_slot_bytes(s.player2_revealed)
        + seq![
        spec_phase_byte(s.phase),
        s.round,
        s.max_rounds,
        s.player1_wins,
        s.player2_wins,
    ]
}

/// Parses a serialized phase-machine state. The parse succeeds exactly on
/// the canonical serializations of well-formed states: the length is exact,
/// absent slots are zero-padded, and the counters satisfy `v2_wf`.
pub open spec fn spec_parse_v2(bytes: Seq<u8>) -> Option<RPSStateModel> {
    if bytes.len() != V2_STATE_SIZE {
        None
    } else if !(bytes[0] <= 1 && bytes[33] <= 1 && bytes[66] <= 1 && bytes[68] <= 1) {
        None
    } else if bytes[0] == 0 && bytes.subrange(1, 33) != spec_zeros32() {
        None
    } else if bytes[33] == 0 && bytes.subrange(34, 66) != spec_zeros32() {
        None
    } else if bytes[66] == 1 && bytes[67] > 2 || bytes[66] == 0 && bytes[67] != 0 {
        None
    } else if bytes[68] == 1 && bytes[69] > 2 || bytes[68] == 0 && bytes[69] != 0 {
        None
    } else if bytes[70] > 5 {
        None
    } else {
        let s = (RPSStateModel {
            player1_commitment: if bytes[0] == 1 {
                Some(bytes.subrange(1, 33))
            } else {
                None
            },
            player2_commitment: if bytes[33] == 1 {
                Some(bytes.subrange(34, 66))
            } else {
                None
            },
            player1_revealed: if bytes[66] == 1 {
                Some(spec_choice_from_byte(bytes[67]))
            } else {
                None
            },
            player2_revealed: if bytes[68] == 1 {
                Some(spec_choice_from_byte(bytes[69]))
            } else {
                None
            },
            phase: spec_phase_from_byte(bytes[70]),
            round: bytes[71],
            max_rounds: bytes[72],
            player1_wins: bytes[73],
            player2_wins: bytes[74],
        });
        if v2_wf(s) {
            Some(s)
        } else {
            None
        }
    }
}

/// The match result once the game is over: the higher score wins.
pub open spec fn spec_v2_winner(s: RPSStateModel) -> GameResult {
    if s.player1_wins > s.player2_wins {
        GameResult::Player1Wins
    } else if s.player2_wins > s.player1_wins {
        GameResult::Player2Wins
    } else {
        GameResult::Draw
    }
}

/// The state and signal after both reveals of a round are in: the round
/// winner scores; reaching the majority finishes the game, and otherwise the
/// next round starts with fresh commitments. A round counter at its limit
/// cannot start another round.
pub open spec fn spec_resolve_round(s: RPSStateModel, p1c: RPSChoice, p2c: RPSChoice) -> Option<
    (RPSStateModel, MoveResult),
> {
    let scored = (RPSStateModel {
        player1_wins: if spec_beats(p1c, p2c) {
            (s.player1_wins + 1) as u8
        } else {
            s.player1_wins
        },
        player2_wins: if spec_beats(p2c, p1c) {
            (s.player2_wins + 1) as u8
        } else {
            s.player2_wins
        },
        ..s
    });
    if scored.player1_wins >= spec_max_wins(s.max_rounds) || scored.player2_wins >= spec_max_wins(
        s.max_rounds,
    ) {
        let done = (RPSStateModel { phase: GamePhase::Finished, ..scored });
        Some((done, MoveResult::GameOver(spec_v2_winner(done))))
    } else if s.round == 255 {
        None
    } else {
        let next = (RPSStateModel {
            round: (s.round + 1) as u8,
            player1_commitment: None,
            player2_commitment: None,
            player1_revealed: None,
            player2_revealed: None,
            phase: GamePhase::Commit,
            ..scored
        });
        Some((next, MoveResult::PhaseChange(GamePhase::Commit)))
    }
}

/// The state and signal after one move. In the commit phase a move is a
/// 32-byte commitment; in the reveal phase it is the choice byte, the
/// 32-byte salt, and optionally the 8-byte nonce the commitment was built
/// with. A reveal must reproduce the committed hash. `None` is a rejected
/// move, which leaves the match unchanged.
pub open spec fn spec_move_step(s: RPSStateModel, is_player1: bool, data: Seq<u8>, player: u64) -> Option<
    (RPSStateModel, MoveResult),
> {
    match s.phase {
        GamePhase::Commit => {
            if data.len() != 32 {
                None
            } else {
                let s1 = if is_player1 {
                    RPSStateModel { player1_commitment: Some(data), ..s }
                } else {
                    RPSStateModel { player2_commitment: Some(data), ..s }
                };
                if s1.player1_commitment is Some && s1.player2_commitment is Some {
                    Some(
                        (
                            RPSStateModel { phase: GamePhase::Reveal, ..s1 },
                            MoveResult::PhaseChange(GamePhase::Reveal),
                        ),
                    )
                } else {
                    Some((s1, MoveResult::WaitingForOpponent))
                }
            }
        },
        GamePhase::Reveal => {
            if data.len() < 33 || data[0] > 2 {
                None
            } else {
                let choice = spec_choice_from_byte(data[0]);
                let salt = data.subrange(1, 33);
                let nonce = if data.len() >= 41 {
                    vstd::bytes::spec_u64_from_le_bytes(data.subrange(33, 41))
                } else {
                    0
                };
                let expected = commitment::spec_commit(spec_choice_to_u8(choice), salt, player, nonce);
                let stored = if is_player1 {
                    s.player1_commitment
                } else {
                    s.player2_commitment
                };
                match stored {
                    None => None,
                    Some(c) => if c != expected {
                        None
                    } else {
                        let s1 = if is_player1 {
                            RPSStateModel { player1_revealed: Some(choice), ..s }
                        } else {
                            RPSStateModel { player2_revealed: Some(choice), ..s }
                        };
                        match (s1.player1_revealed, s1.player2_revealed) {
                            (Some(a), Some(b)) => spec_resolve_round(s1, a, b),
                            _ => Some((s1, MoveResult::WaitingForOpponent)),
                        }
                    },
                }
            }
        },
        _ => None,
    }
}

/// The model of an optional commitment array.
pub open spec fn spec_opt_commit(c: Option<[u8; 32]>) -> Option<Seq<u8>> {
    match c {
        Some(a) => Some(a@),
        None => None,
    }
}

/// Appends a commitment slot: flag byte, then the 32 bytes (zeros if absent).
fn push_commit_slot(dst: &mut Vec<u8>, c: &Option<[u8; 32]>)
    ensures
        final(dst)@ == old(dst)@ + spec_commit_slot_bytes(spec_opt_commit(*c)),
{
    match c {
        Some(a) => {
            dst.push(1);
            let mut i: usize = 0;
            while i < 32
                invariant
                    i <= 32,
                    dst@ == old(dst)@ + seq![1u8] + a@.subrange(0, i as int),
                decreases 32 - i,
            {
                dst.push(a[i]);
                proof {
                    assert(old(dst)@ + seq![1u8] + a@.subrange(0, i as int) + seq![a@[i as int]]
                        =~= old(dst)@ + seq![1u8] + a@.subrange(0, i + 1));
                }
                i = i + 1;
            }
            proof {
                assert(a@.subrange(0, 32) =~= a@);
                assert(dst@ =~= old(dst)@ + spec_commit_slot_bytes(spec_opt_commit(*c)));
            }
        },
        None => {
            dst.push(0);
            let mut i: usize = 0;
            while i < 32
                invariant
                    i <= 32,
                    dst@ == old(dst)@ + seq![0u8] + spec_zeros32().subrange(0, i as int),
                decreases 32 - i,
            {
                dst.push(0);
                proof {
                    assert(old(dst)@ + seq![0u8] + spec_zeros32().subrange(0, i as int) + seq![
                        0u8,
                    ] =~= old(dst)@ + seq![0u8] + spec_zeros32().subrange(0, i + 1));
                }
                i = i + 1;
            }
            proof {
                assert(spec_zeros32().subrange(0, 32) =~= spec_zeros32());
                assert(dst@ =~= old(dst)@ + spec_commit_slot_bytes(spec_opt_commit(*c)));
            }
        },
    }
}

/// Appends a revealed-choice slot: flag byte, then the choice byte.
fn push_reveal_slot(dst: &mut Vec<u8>, r: &Option<RPSChoice>)
    ensures
        final(dst)@ == old(dst)@ + spec_reveal_slot_bytes(*r),
{
    match r {
        Some(c) => {
            dst.push(1);
            dst.push(c.to_u8());
        },
        None => {
            dst.push(0);
            dst.push(0);
        },
    }
    proof {
        assert(dst@ =~= old(dst)@ + spec_reveal_slot_bytes(*r));
    }
}

impl GamePhase {
    /// The byte of this phase.
    pub fn to_u8(self) -> (r: u8)
        ensures
            r == spec_phase_byte(self),
    {
        match self {
            GamePhase::Setup => 0,
            GamePhase::Commit => 1,
            GamePhase::Reveal => 2,
            GamePhase::Playing => 3,
            GamePhase::Scoring => 4,
            GamePhase::Finished => 5,
        }
    }

    /// Decodes a phase byte; values above 5 are rejected.
    pub fn from_u8(value: u8) -> (r: Result<GamePhase, UniversalGameError>)
        ensures
            value <= 5 ==> r == Ok::<GamePhase, UniversalGameError>(spec_phase_from_byte(value)),
            value > 5 ==> r == Err::<GamePhase, UniversalGameError>(
                UniversalGameError::InvalidGameState,
            ),
    {
        match value {
            0 => Ok(GamePhase::Setup),
            1 => Ok(GamePhase::Commit),
            2 => Ok(GamePhase::Reveal),
            3 => Ok(GamePhase::Playing),
            4 => Ok(GamePhase::Scoring),
            5 => Ok(GamePhase::Finished),
            _ => Err(UniversalGameError::InvalidGameState),
        }
    }
}

/// Whether `bytes[start..end]` is all zeros.
fn all_zero(bytes: &[u8], start: usize, end: usize) -> (r: bool)
    requires
        start <= end <= bytes@.len(),
    ensures
        r == (bytes@.subrange(start as int, end as int) == Seq::new(
            (end - start) as nat,
            |i: int| 0u8,
        )),
{
    let ghost z = Seq::new((end - start) as nat, |i: int| 0u8);
    let mut i: usize = start;
    while i < end
        invariant
            start <= i <= end <= bytes@.len(),
            z == Seq::new((end - start) as nat, |j: int| 0u8),
            forall|j: int| start <= j < i ==> bytes@[j] == 0,
        decreases end - i,
    {
        if bytes[i] != 0 {
            proof {
                let sub = bytes@.subrange(start as int, end as int);
                assert(sub[i - start] == bytes@[i as int]);
                assert(z[i - start] == 0);
                assert(sub != z);
            }
            return false;
        }
        i = i + 1;
    }
    proof {
        assert(bytes@.subrange(start as int, end as int) =~= z);
    }
    true
}

impl RPSGameStateV2 {
    /// Serializes this state under the fixed codec.
    pub fn as_bytes(&self) -> (r: Vec<u8>)
        ensures
            r@ == spec_v2_bytes(self@),
    {
        let mut bytes: Vec<u8> = Vec::new();
        push_commit_slot(&mut bytes, &self.player1_commitment);
        push_commit_slot(&mut bytes, &self.player2_commitment);
        push_reveal_slot(&mut bytes, &self.player1_revealed);
        push_reveal_slot(&mut bytes, &self.player2_revealed);
        bytes.push(self.phase.to_u8());
        bytes.push(self.round);
        bytes.push(self.max_rounds);
        bytes.push(self.player1_wins);
        bytes.push(self.player2_wins);
        proof {
            assert(bytes@ =~= spec_v2_bytes(self@));
        }
        bytes
    }

    /// Deserializes a state. Anything but the canonical serialization of a
    /// well-formed state — wrong length, bad flags or padding, out-of-range
    /// choice, phase or score bytes — is rejected.
    pub fn from_bytes(bytes: &[u8]) -> (r: Result<RPSGameStateV2, UniversalGameError>)
        ensures
            match spec_parse_v2(bytes@) {
                Some(v) => r matches Ok(s) && s@ == v,
                None => r == Err::<RPSGameStateV2, UniversalGameError>(
                    UniversalGameError::InvalidGameState,
                ),
            },
    {
        if bytes.len() != V2_STATE_SIZE {
            return Err(UniversalGameError::InvalidGameState);
        }
        let f1 = bytes[0];
        let f2 = bytes[33];
        let f3 = bytes[66];
        let f4 = bytes[68];
        if !(f1 <= 1 && f2 <= 1 && f3 <= 1 && f4 <= 1) {
            return Err(UniversalGameError::InvalidGameState);
        }
        if f1 == 0 && !all_zero(bytes, 1, 33) {
            return Err(UniversalGameError::InvalidGameState);
        }
        if f2 == 0 && !all_zero(bytes, 34, 66) {
            return Err(UniversalGameError::InvalidGameState);
        }
        if f3 == 1 && bytes[67] > 2 || f3 == 0 && bytes[67] != 0 {
            return Err(UniversalGameError::InvalidGameState);
        }
        if f4 == 1 && bytes[69] > 2 || f4 == 0 && bytes[69] != 0 {
            return Err(UniversalGameError::InvalidGameState);
        }
        if bytes[70] > 5 {
            return Err(UniversalGameError::InvalidGameState);
        }
        let phase = match GamePhase::from_u8(bytes[70]) {
            Ok(p) => p,
            Err(e) => {
                return Err(e);
            },
        };
        let player1_commitment = if f1 == 1 {
            Some(commitment::copy32(bytes, 1))
        } else {
            None
        };
        let player2_commitment = if f2 == 1 {
            Some(commitment::copy32(bytes, 34))
        } else {
            None
        };
        let player1_revealed = if f3 == 1 {
            match RPSChoice::from_u8(bytes[67]) {
                Ok(c) => Some(c),
                Err(_) => {
                    return Err(UniversalGameError::InvalidGameState);
                },
            }
        } else {
            None
        };
        let player2_revealed = if f4 == 1 {
            match RPSChoice::from_u8(bytes[69]) {
                Ok(c) => Some(c),
                Err(_) => {
                    return Err(UniversalGameError::InvalidGameState);
                },
            }
        } else {
            None
        };
        let round = bytes[71];
        let max_rounds = bytes[72];
        let player1_wins = bytes[73];
        let player2_wins = bytes[74];
        let max_wins = max_rounds / 2 + 1;
        if !(max_rounds >= 1 && round >= 1 && player1_wins <= max_wins && player2_wins
            <= max_wins) {
            return Err(UniversalGameError::InvalidGameState);
        }
        if !matches!(phase, GamePhase::Finished) && !(player1_wins < max_wins && player2_wins
            < max_wins) {
            return Err(UniversalGameError::InvalidGameState);
        }
        if matches!(phase, GamePhase::Reveal) && !(f1 == 1 && f2 == 1) {
            return Err(UniversalGameError::InvalidGameState);
        }
        let s = RPSGameStateV2 {
            player1_commitment,
            player2_commitment,
            player1_revealed,
            player2_revealed,
            phase,
            round,
            max_rounds,
            player1_wins,
            player2_wins,
        };
        proof {
            let v = spec_parse_v2(bytes@).unwrap();
            assert(s@ =~= v);
        }
        Ok(s)
    }

    /// A coarse integrity bound: the round counter and both scores stay
    /// within the configured rounds.
    pub fn is_valid(&self) -> (r: bool)
        ensures
            r == (self.round <= self.max_rounds && self.player1_wins <= self.max_rounds
                && self.player2_wins <= self.max_rounds),
    {
        self.round <= self.max_rounds && self.player1_wins <= self.max_rounds
            && self.player2_wins <= self.max_rounds
    }

    /// The phase this state is in.
    pub fn phase(&self) -> (r: GamePhase)
        ensures
            r == self.phase,
    {
        self.phase
    }
}

/// Evidence that a party manipulated a match.
#[derive(Debug)]
pub struct CheatDetection {
    pub cheater: u64,
    pub cheat_type: CheatType,
    pub evidence: Vec<u8>,
}

#[derive(Clone, Copy, PartialEq, Eq, Structural, Debug)]
pub enum CheatType {
    InvalidMove,
    StateManipulation,
    TimingAttack,
    CommitmentViolation,
}

/// The commit-reveal Rock-Paper-Scissors game.
pub struct RockPaperScissorsV2;

impl RockPaperScissorsV2 {
    pub fn new() -> (r: RockPaperScissorsV2) {
        RockPaperScissorsV2
    }

    /// Two players, and one to ten rounds.
    pub fn validate_config(&self, config: &GameConfig) -> (r: Result<(), UniversalGameError>)
        ensures
            (r matches Ok(u)) <==> (config.max_players == 2 && 1 <= config.rounds <= 10),
            r matches Err(e) ==> e == UniversalGameError::InvalidGameState,
    {
        if config.max_players != 2 {
            return Err(UniversalGameError::InvalidGameState);
        }
        if !(1 <= config.rounds && config.rounds <= 10) {
            return Err(UniversalGameError::InvalidGameState);
        }
        Ok(())
    }

    /// The fresh state a match starts in: no commitments, no reveals, round
    /// one of the configured rounds, commit phase.
    pub open spec fn spec_initial_state(config: GameConfig) -> RPSStateModel {
        RPSStateModel {
            player1_commitment: None,
            player2_commitment: None,
            player1_revealed: None,
            player2_revealed: None,
            phase: GamePhase::Commit,
            round: 1,
            max_rounds: config.rounds,
            player1_wins: 0,
            player2_wins: 0,
        }
    }

    /// Writes the fresh commit-phase state into the match's game state.
    pub fn initialize_game_state(
        &self,
        match_data: &mut UniversalMatch,
        config: &GameConfig,
    ) -> (r: Result<(), UniversalGameError>)
        requires
            old(match_data).wf(),
        ensures
            final(match_data).wf(),
            (r matches Ok(u)) <==> (config.max_players == 2 && 1 <= config.rounds <= 10),
            r matches Err(e) ==> *final(match_data) == *old(match_data) && e
                == UniversalGameError::InvalidGameState,
            r matches Ok(u) ==> *final(match_data) == (UniversalMatch {
                game_state: final(match_data).game_state,
                ..*old(match_data)
            }) && final(match_data).game_state@ == spec_v2_bytes(Self::spec_initial_state(*config)),
    {
        if let Err(e) = self.validate_config(config) {
            return Err(e);
        }
        let state = RPSGameStateV2 {
            player1_commitment: None,
            player2_commitment: None,
            player1_revealed: None,
            player2_revealed: None,
            phase: GamePhase::Commit,
            round: 1,
            max_rounds: config.rounds,
            player1_wins: 0,
            player2_wins: 0,
        };
        let encoded = state.as_bytes();
        match_data.game_state = encoded;
        proof {
            assert(state@ =~= Self::spec_initial_state(*config));
        }
        Ok(())
    }

    /// Whether a move payload has the right shape for the current phase:
    /// exactly 32 commitment bytes in the commit phase, and at least the
    /// choice byte plus 32 salt bytes in the reveal phase.
    pub fn validate_move(
        &self,
        player: u64,
        move_data: &Vec<u8>,
        match_data: &UniversalMatch,
    ) -> (r: Result<(), UniversalGameError>)
        ensures
            r matches Err(e) ==> e == UniversalGameError::InvalidGameState,
            (r matches Ok(u)) <==> (match spec_parse_v2(match_data.game_state@) {
                None => false,
                Some(s) => (match s.phase {
                    GamePhase::Commit => move_data@.len() == 32,
                    GamePhase::Reveal => move_data@.len() >= 33 && move_data@[0] <= 2,
                    _ => false,
                }),
            }),
    {
        let state = match RPSGameStateV2::from_bytes(match_data.game_state.as_slice()) {
            Ok(s) => s,
            Err(e) => {
                return Err(e);
            },
        };
        match state.phase {
            GamePhase::Commit => {
                if move_data.len() != 32 {
                    return Err(UniversalGameError::InvalidGameState);
                }
                Ok(())
            },
            GamePhase::Reveal => {
                if move_data.len() < 33 {
                    return Err(UniversalGameError::InvalidGameState);
                }
                if move_data[0] > 2 {
                    return Err(UniversalGameError::InvalidGameState);
                }
                Ok(())
            },
            _ => Err(UniversalGameError::InvalidGameState),
        }
    }

    /// Applies a round-resolution step to the in-memory state.
    fn resolve_round(
        &self,
        state: &mut RPSGameStateV2,
        p1_choice: RPSChoice,
        p2_choice: RPSChoice,
    ) -> (r: Result<MoveResult, UniversalGameError>)
        requires
            v2_wf(old(state)@),
            old(state)@.phase != GamePhase::Finished,
        ensures
            match spec_resolve_round(old(state)@, p1_choice, p2_choice) {
                None => r == Err::<MoveResult, UniversalGameError>(
                    UniversalGameError::InvalidGameState,
                ),
                Some((s1, mr)) => (r matches Ok(m) && m == mr && final(state)@ == s1 && v2_wf(s1)),
            },
    {
        if p1_choice.beats(&p2_choice) {
            state.player1_wins = state.player1_wins + 1;
        } else if p2_choice.beats(&p1_choice) {
            state.player2_wins = state.player2_wins + 1;
        }
        let max_wins = state.max_rounds / 2 + 1;
        if state.player1_wins >= max_wins || state.player2_wins >= max_wins {
            state.phase = GamePhase::Finished;
            let winner = if state.player1_wins > state.player2_wins {
                GameResult::Player1Wins
            } else if state.player2_wins > state.player1_wins {
                GameResult::Player2Wins
            } else {
                GameResult::Draw
            };
            proof {
                let (s1, mr) = spec_resolve_round(old(state)@, p1_choice, p2_choice).unwrap();
                assert(state@ =~= s1);
            }
            return Ok(MoveResult::GameOver(winner));
        }
        if state.round == 255 {
            // The round counter cannot start another round; reject rather
            // than wrap.
            proof {
                assert(spec_resolve_round(old(state)@, p1_choice, p2_choice) is None);
            }
            return Err(UniversalGameError::InvalidGameState);
        }
        state.round = state.round + 1;
        state.player1_commitment = None;
        state.player2_commitment = None;
        state.player1_revealed = None;
        state.player2_revealed = None;
        state.phase = GamePhase::Commit;
        proof {
            let (s1, mr) = spec_resolve_round(old(state)@, p1_choice, p2_choice).unwrap();
            assert(state@ =~= s1);
        }
        Ok(MoveResult::PhaseChange(GamePhase::Commit))
    }

    /// Processes one move by the creator (player one) or any other party
    /// (player two): a commitment in the commit phase, or a reveal — choice
    /// byte, 32-byte salt, and optionally the 8-byte nonce — checked against
    /// that party's commitment. The updated state is written back; a
    /// rejected move leaves the match unchanged.
    pub fn process_move(
        &self,
        player: u64,
        move_data: &Vec<u8>,
        match_data: &mut UniversalMatch,
    ) -> (r: Result<MoveResult, UniversalGameError>)
        requires
            old(match_data).wf(),
        ensures
            final(match_data).wf(),
            r matches Err(e) ==> *final(match_data) == *old(match_data) && e
                == UniversalGameError::InvalidGameState,
            match spec_parse_v2(old(match_data).game_state@) {
                None => r is Err,
                Some(s0) => (match spec_move_step(
                    s0,
                    player == old(match_data).creator,
                    move_data@,
                    player,
                ) {
                    None => r is Err,
                    Some((s1, mr)) => (r matches Ok(m) && m == mr
                        && final(match_data).game_state@ == spec_v2_bytes(s1)
                        && *final(match_data) == (UniversalMatch {
                        game_state: final(match_data).game_state,
                        ..*old(match_data)
                    })),
                }),
            },
    {
        let mut state = match RPSGameStateV2::from_bytes(match_data.game_state.as_slice()) {
            Ok(s) => s,
            Err(_) => {
                return Err(UniversalGameError::InvalidGameState);
            },
        };
        let is_player1 = player == match_data.creator;
        match state.phase {
            GamePhase::Commit => {
                if move_data.len() != 32 {
                    return Err(UniversalGameError::InvalidGameState);
                }
                let commitment_arr = commitment::copy32(move_data.as_slice(), 0);
                proof {
                    assert(commitment_arr@ =~= move_data@);
                }
                if is_player1 {
                    state.player1_commitment = Some(commitment_arr);
                } else {
                    state.player2_commitment = Some(commitment_arr);
                }
                let both = state.player1_commitment.is_some()
                    && state.player2_commitment.is_some();
                if both {
                    state.phase = GamePhase::Reveal;
                }
                let encoded = state.as_bytes();
                match_data.game_state = encoded;
                proof {
                    let (s1, mr) = spec_move_step(
                        spec_parse_v2(old(match_data).game_state@).unwrap(),
                        is_player1,
                        move_data@,
                        player,
                    ).unwrap();
                    assert(state@ =~= s1);
                }
                if both {
                    Ok(MoveResult::PhaseChange(GamePhase::Reveal))
                } else {
                    Ok(MoveResult::WaitingForOpponent)
                }
            },
            GamePhase::Reveal => {
                if move_data.len() < 33 {
                    return Err(UniversalGameError::InvalidGameState);
                }
                if move_data[0] > 2 {
                    return Err(UniversalGameError::InvalidGameState);
                }
                let choice = match RPSChoice::from_u8(move_data[0]) {
                    Ok(c) => c,
                    Err(_) => {
                        return Err(UniversalGameError::InvalidGameState);
                    },
                };
                let salt = commitment::copy32(move_data.as_slice(), 1);
                let nonce: u64 = if move_data.len() >= 41 {
                    vstd::bytes::u64_from_le_bytes(&move_data.as_slice()[33..41])
                } else {
                    0
                };
                let expected = commitment::commit(choice.to_u8(), &salt, player, nonce);
                let stored: [u8; 32] = if is_player1 {
                    match state.player1_commitment {
                        Some(c) => c,
                        None => {
                            return Err(UniversalGameError::InvalidGameState);
                        },
                    }
                } else {
                    match state.player2_commitment {
                        Some(c) => c,
                        None => {
                            return Err(UniversalGameError::InvalidGameState);
                        },
                    }
                };
                if !commitment::bytes32_eq(&stored, &expected) {
                    return Err(UniversalGameError::InvalidGameState);
                }
                if is_player1 {
                    state.player1_revealed = Some(choice);
                } else {
                    state.player2_revealed = Some(choice);
                }
                let p1r = state.player1_revealed;
                let p2r = state.player2_revealed;
                match (p1r, p2r) {
                    (Some(a), Some(b)) => {
                        let mr = match self.resolve_round(&mut state, a, b) {
                            Ok(m) => m,
                            Err(e) => {
                                return Err(e);
                            },
                        };
                        let encoded = state.as_bytes();
                        match_data.game_state = encoded;
                        Ok(mr)
                    },
                    _ => {
                        let encoded = state.as_bytes();
                        match_data.game_state = encoded;
                        Ok(MoveResult::WaitingForOpponent)
                    },
                }
            },
            _ => Err(UniversalGameError::InvalidGameState),
        }
    }
}

impl RockPaperScissorsV2 {
    /// The game kind this logic implements.
    pub fn game_type(&self) -> (r: crate::engine::GameType)
        ensures
            r == crate::engine::GameType::RockPaperScissors,
    {
        crate::engine::GameType::RockPaperScissors
    }

    pub fn min_players(&self) -> (r: u8)
        ensures
            r == 2,
    {
        2
    }

    pub fn max_players(&self) -> (r: u8)
        ensures
            r == 2,
    {
        2
    }

    /// The default parameters of a commit-reveal match.
    pub fn default_config(&self) -> (r: GameConfig)
        ensures
            r.max_players == 2,
            r.min_bet == 10_000_000,
            r.max_bet == 100_000_000_000,
            r.rounds == 1,
    {
        GameConfig {
            max_players: 2,
            min_bet: 10_000_000,
            max_bet: 100_000_000_000,
            rounds: 1,
            custom_params: vstd::array::array_fill_for_copy_types::<u8, 16>(0u8),
        }
    }

    pub fn supports_commit_reveal(&self) -> (r: bool)
        ensures
            r,
    {
        true
    }

    pub fn supports_multiple_rounds(&self) -> (r: bool)
        ensures
            r,
    {
        true
    }

    /// The per-move deadline, in seconds.
    pub fn get_move_timeout(&self, _match_data: &UniversalMatch) -> (r: Option<i64>)
        ensures
            r == Some(300i64),
    {
        Some(300)
    }

    pub fn get_minimum_bet(&self) -> (r: u64)
        ensures
            r == 10_000_000,
    {
        10_000_000
    }

    pub fn get_maximum_bet(&self) -> (r: u64)
        ensures
            r == 100_000_000_000,
    {
        100_000_000_000
    }

    /// Whether the party may act now: in the commit phase a party that has
    /// not committed, in the reveal phase one that has not revealed.
    pub fn can_make_move(&self, player: u64, match_data: &UniversalMatch) -> (r: bool)
        ensures
            r == (match spec_parse_v2(match_data.game_state@) {
                None => false,
                Some(s) => (match s.phase {
                    GamePhase::Commit => if player == match_data.creator {
                        s.player1_commitment is None
                    } else {
                        s.player2_commitment is None
                    },
                    GamePhase::Reveal => if player == match_data.creator {
                        s.player1_revealed is None
                    } else {
                        s.player2_revealed is None
                    },
                    _ => false,
                }),
            }),
    {
        let state = match RPSGameStateV2::from_bytes(match_data.game_state.as_slice()) {
            Ok(s) => s,
            Err(_) => {
                return false;
            },
        };
        let is_player1 = player == match_data.creator;
        match state.phase {
            GamePhase::Commit => {
                if is_player1 {
                    state.player1_commitment.is_none()
                } else {
                    state.player2_commitment.is_none()
                }
            },
            GamePhase::Reveal => {
                if is_player1 {
                    state.player1_revealed.is_none()
                } else {
                    state.player2_revealed.is_none()
                }
            },
            _ => false,
        }
    }

    /// The phase the stored state is in; an unreadable state counts as
    /// setup.
    pub fn get_current_phase(&self, match_data: &UniversalMatch) -> (r: GamePhase)
        ensures
            r == (match spec_parse_v2(match_data.game_state@) {
                None => GamePhase::Setup,
                Some(s) => s.phase,
            }),
    {
        match RPSGameStateV2::from_bytes(match_data.game_state.as_slice()) {
            Ok(s) => s.phase,
            Err(_) => GamePhase::Setup,
        }
    }

    /// Whether the match is over: a score reached the majority, or the
    /// state is already finished.
    pub fn is_game_over(&self, match_data: &UniversalMatch) -> (r: bool)
        ensures
            r == (match spec_parse_v2(match_data.game_state@) {
                None => false,
                Some(s) => s.player1_wins >= spec_max_wins(s.max_rounds) || s.player2_wins
                    >= spec_max_wins(s.max_rounds) || s.phase == GamePhase::Finished,
            }),
    {
        let state = match RPSGameStateV2::from_bytes(match_data.game_state.as_slice()) {
            Ok(s) => s,
            Err(_) => {
                return false;
            },
        };
        let max_wins = state.max_rounds / 2 + 1;
        state.player1_wins >= max_wins || state.player2_wins >= max_wins || matches!(
            state.phase,
            GamePhase::Finished,
        )
    }

    /// The match result by score: the higher score wins, equal scores draw.
    pub fn determine_winner(&self, match_data: &UniversalMatch) -> (r: Result<
        GameResult,
        UniversalGameError,
    >)
        ensures
            r == (match spec_parse_v2(match_data.game_state@) {
                None => Err::<GameResult, UniversalGameError>(UniversalGameError::InvalidGameState),
                Some(s) => Ok::<GameResult, UniversalGameError>(spec_v2_winner(s)),
            }),
    {
        let state = match RPSGameStateV2::from_bytes(match_data.game_state.as_slice()) {
            Ok(s) => s,
            Err(_) => {
                return Err(UniversalGameError::InvalidGameState);
            },
        };
        if state.player1_wins > state.player2_wins {
            Ok(GameResult::Player1Wins)
        } else if state.player2_wins > state.player1_wins {
            Ok(GameResult::Player2Wins)
        } else {
            Ok(GameResult::Draw)
        }
    }

    /// The payouts of a judged match: the winner takes the whole pot, and a
    /// draw refunds both stakes. The sum is exactly the pot.
    pub fn calculate_payouts(&self, match_data: &UniversalMatch) -> (r: Result<
        Vec<Payout>,
        UniversalGameError,
    >)
        requires
            match_data.wf(),
        ensures
            (r matches Ok(ps)) <==> (spec_parse_v2(match_data.game_state@) is Some
                && match_data.opponent is Some),
            r matches Err(e) ==> e == UniversalGameError::InvalidGameState,
            r matches Ok(ps) ==> ps@ == match_data.spec_settle_payouts(
                spec_v2_winner(spec_parse_v2(match_data.game_state@).unwrap()),
            ) && sum_amounts(ps@) == match_data.total_pot,
    {
        let state = match RPSGameStateV2::from_bytes(match_data.game_state.as_slice()) {
            Ok(s) => s,
            Err(_) => {
                return Err(UniversalGameError::InvalidGameState);
            },
        };
        let opponent = match match_data.opponent {
            Some(o) => o,
            None => {
                return Err(UniversalGameError::InvalidGameState);
            },
        };
        let mut payouts: Vec<Payout> = Vec::new();
        if state.player1_wins > state.player2_wins {
            payouts.push(
                Payout {
                    player: match_data.creator,
                    amount: match_data.total_pot,
                    reason: PayoutReason::Winner,
                },
            );
        } else if state.player2_wins > state.player1_wins {
            payouts.push(
                Payout {
                    player: opponent,
                    amount: match_data.total_pot,
                    reason: PayoutReason::Winner,
                },
            );
        } else {
            payouts.push(
                Payout {
                    player: match_data.creator,
                    amount: match_data.bet_amount,
                    reason: PayoutReason::Tie,
                },
            );
            payouts.push(
                Payout {
                    player: opponent,
                    amount: match_data.bet_amount,
                    reason: PayoutReason::Tie,
                },
            );
        }
        proof {
            assert(payouts@ =~= match_data.spec_settle_payouts(
                spec_v2_winner(spec_parse_v2(match_data.game_state@).unwrap()),
            ));
            lemma_sum_amounts_small(payouts@);
        }
        Ok(payouts)
    }

    /// Resolves a timed-out phase: a party that failed to commit or to
    /// reveal forfeits; if neither acted the stakes are refunded with no
    /// fault; if both acted the phase resolves normally and the game
    /// continues.
    pub fn handle_timeout(&self, match_data: &UniversalMatch) -> (r: Result<
        TimeoutResult,
        UniversalGameError,
    >)
        ensures
            (r matches Ok(t)) <==> (match spec_parse_v2(match_data.game_state@) {
                None => false,
                Some(s) => (match s.phase {
                    GamePhase::Commit => !(s.player1_commitment is Some && s.player2_commitment
                        is None && match_data.opponent is None),
                    GamePhase::Reveal => !(s.player1_revealed is Some && s.player2_revealed
                        is None && match_data.opponent is None),
                    _ => true,
                }),
            }),
            r matches Err(e) ==> e == UniversalGameError::InvalidGameState,
            r matches Ok(t) ==> t == (
            {
                let s = spec_parse_v2(match_data.game_state@).unwrap();
                match s.phase {
                    GamePhase::Commit => if s.player1_commitment is None && s.player2_commitment
                        is None {
                        TimeoutResult::RefundAll
                    } else if s.player1_commitment is None {
                        TimeoutResult::ForfeitPlayer(match_data.creator)
                    } else if s.player2_commitment is None {
                        TimeoutResult::ForfeitPlayer(match_data.opponent.unwrap())
                    } else {
                        TimeoutResult::ContinueGame
                    },
                    GamePhase::Reveal => if s.player1_revealed is None && s.player2_revealed
                        is None {
                        TimeoutResult::RefundAll
                    } else if s.player1_revealed is None {
                        TimeoutResult::ForfeitPlayer(match_data.creator)
                    } else if s.player2_revealed is None {
                        TimeoutResult::ForfeitPlayer(match_data.opponent.unwrap())
                    } else {
                        TimeoutResult::ContinueGame
                    },
                    _ => TimeoutResult::ContinueGame,
                }
            }),
    {
        let state = match RPSGameStateV2::from_bytes(match_data.game_state.as_slice()) {
            Ok(s) => s,
            Err(_) => {
                return Err(UniversalGameError::InvalidGameState);
            },
        };
        match state.phase {
            GamePhase::Commit => {
                if state.player1_commitment.is_none() && state.player2_commitment.is_none() {
                    Ok(TimeoutResult::RefundAll)
                } else if state.player1_commitment.is_none() {
                    Ok(TimeoutResult::ForfeitPlayer(match_data.creator))
                } else if state.player2_commitment.is_none() {
                    match match_data.opponent {
                        Some(o) => Ok(TimeoutResult::ForfeitPlayer(o)),
                        None => Err(UniversalGameError::InvalidGameState),
                    }
                } else {
                    Ok(TimeoutResult::ContinueGame)
                }
            },
            GamePhase::Reveal => {
                if state.player1_revealed.is_none() && state.player2_revealed.is_none() {
                    Ok(TimeoutResult::RefundAll)
                } else if state.player1_revealed.is_none() {
                    Ok(TimeoutResult::ForfeitPlayer(match_data.creator))
                } else if state.player2_revealed.is_none() {
                    match match_data.opponent {
                        Some(o) => Ok(TimeoutResult::ForfeitPlayer(o)),
                        None => Err(UniversalGameError::InvalidGameState),
                    }
                } else {
                    Ok(TimeoutResult::ContinueGame)
                }
            },
            _ => Ok(TimeoutResult::ContinueGame),
        }
    }

    /// The stored state passes the integrity bound.
    pub fn verify_game_integrity(&self, match_data: &UniversalMatch) -> (r: Result<
        (),
        UniversalGameError,
    >)
        ensures
            (r matches Ok(u)) <==> (match spec_parse_v2(match_data.game_state@) {
                None => false,
                Some(s) => s.round <= s.max_rounds && s.player1_wins <= s.max_rounds
                    && s.player2_wins <= s.max_rounds,
            }),
            r matches Err(e) ==> e == UniversalGameError::InvalidGameState,
    {
        let state = match RPSGameStateV2::from_bytes(match_data.game_state.as_slice()) {
            Ok(s) => s,
            Err(_) => {
                return Err(UniversalGameError::InvalidGameState);
            },
        };
        if state.is_valid() {
            Ok(())
        } else {
            Err(UniversalGameError::InvalidGameState)
        }
    }

    /// Commit-reveal makes cheating detectable cryptographically; nothing
    /// further to flag.
    pub fn detect_cheating(&self, _match_data: &UniversalMatch) -> (r: Result<
        Option<CheatDetection>,
        UniversalGameError,
    >)
        ensures
            r matches Ok(c) && c is None,
    {
        Ok(None)
    }

    /// The commitment a party posts for a choice: bound to the choice, the
    /// salt, the party identity and the nonce, so it can be neither forged
    /// nor replayed by the counter-party.
    pub fn create_commitment(&self, choice: RPSChoice, salt: &[u8; 32], player: u64, nonce: u64) -> (r:
        [u8; 32])
        ensures
            r@ == commitment::spec_commit(spec_choice_to_u8(choice), salt@, player, nonce),
    {
        commitment::commit(choice.to_u8(), salt, player, nonce)
    }
}

/// Codec round trip: parsing the serialization of any well-formed state
/// gives that state back.
#[verifier::rlimit(100)]
#[verifier::spinoff_prover]
pub proof fn lemma_v2_bytes_round_trip(s: RPSStateModel)
    requires
        v2_wf(s),
    ensures
        spec_parse_v2(spec_v2_bytes(s)) == Some(s),
{
    let bytes = spec_v2_bytes(s);
    assert(spec_commit_slot_bytes(s.player1_commitment).len() == 33);
    assert(spec_commit_slot_bytes(s.player2_commitment).len() == 33);
    assert(spec_reveal_slot_bytes(s.player1_revealed).len() == 2);
    assert(spec_reveal_slot_bytes(s.player2_revealed).len() == 2);
    assert(bytes.len() == V2_STATE_SIZE);
    match s.player1_commitment {
        Some(c) => {
            assert(bytes[0] == 1);
            assert(bytes.subrange(1, 33) =~= c);
        },
        None => {
            assert(bytes[0] == 0);
            assert(bytes.subrange(1, 33) =~= spec_zeros32());
        },
    }
    match s.player2_commitment {
        Some(c) => {
            assert(bytes[33] == 1);
            assert(bytes.subrange(34, 66) =~= c);
        },
        None => {
            assert(bytes[33] == 0);
            assert(bytes.subrange(34, 66) =~= spec_zeros32());
        },
    }
    match s.player1_revealed {
        Some(c) => {
            assert(bytes[66] == 1);
            assert(bytes[67] == spec_choice_to_u8(c));
            assert(spec_choice_from_byte(spec_choice_to_u8(c)) == c);
        },
        None => {
            assert(bytes[66] == 0);
            assert(bytes[67] == 0);
        },
    }
    match s.player2_revealed {
        Some(c) => {
            assert(bytes[68] == 1);
            assert(bytes[69] == spec_choice_to_u8(c));
            assert(spec_choice_from_byte(spec_choice_to_u8(c)) == c);
        },
        None => {
            assert(bytes[68] == 0);
            assert(bytes[69] == 0);
        },
    }
    assert(bytes[70] == spec_phase_byte(s.phase));
    assert(spec_phase_from_byte(spec_phase_byte(s.phase)) == s.phase);
    assert(bytes[71] == s.round);
    assert(bytes[72] == s.max_rounds);
    assert(bytes[73] == s.player1_wins);
    assert(bytes[74] == s.player2_wins);
    match spec_parse_v2(bytes) {
        Some(v) => {
            assert(v =~= s);
        },
        None => {
            assert(false);
        },
    }
}

} // verus!
