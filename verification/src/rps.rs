//! Rock-Paper-Scissors: the choice type, the beats relation and the judge
//! for a single round. Rock beats Scissors, Paper beats Rock, Scissors beats
//! Paper; identical choices are a draw.

use vstd::prelude::*;
use crate::rounds::GameResult;

verus! {

#[derive(Clone, Copy, PartialEq, Eq, Structural, Debug)]
pub enum RPSChoice {
    Rock,
    Paper,
    Scissors,
}

#[derive(Clone, Copy, PartialEq, Eq, Structural, Debug)]
pub enum RPSGameError {
    InvalidChoice,
    InvalidMoveData,
    IncompleteGameState,
    InvalidStateData,
    CommitmentVerificationFailed,
    RevealDeadlinePassed,
    AlreadyRevealed,
    NotReadyToReveal,
}

/// The byte discriminant of a choice: Rock 0, Paper 1, Scissors 2.
pub open spec fn spec_choice_to_u8(c: RPSChoice) -> u8 {
    match c {
        RPSChoice::Rock => 0,
        RPSChoice::Paper => 1,
        RPSChoice::Scissors => 2,
    }
}

/// Whether `a` beats `b` in a single Rock-Paper-Scissors round.
pub open spec fn spec_beats(a: RPSChoice, b: RPSChoice) -> bool {
    match (a, b) {
        (RPSChoice::Rock, RPSChoice::Scissors) => true,
        (RPSChoice::Paper, RPSChoice::Rock) => true,
        (RPSChoice::Scissors, RPSChoice::Paper) => true,
        _ => false,
    }
}

/// The result of one round: a draw on identical choices, otherwise the win
/// goes by the beats relation.
pub open spec fn spec_round_result(p1: RPSChoice, p2: RPSChoice) -> GameResult {
    if p1 == p2 {
        GameResult::Draw
    } else if spec_beats(p1, p2) {
        GameResult::Player1Wins
    } else {
        GameResult::Player2Wins
    }
}

impl RPSChoice {
    /// Decodes a choice from its byte discriminant; any value above 2 is
    /// rejected.
    pub fn from_u8(value: u8) -> (r: Result<RPSChoice, RPSGameError>)
        ensures
            value == 0 ==> r == Ok::<RPSChoice, RPSGameError>(RPSChoice::Rock),
            value == 1 ==> r == Ok::<RPSChoice, RPSGameError>(RPSChoice::Paper),
            value == 2 ==> r == Ok::<RPSChoice, RPSGameError>(RPSChoice::Scissors),
            value > 2 ==> r == Err::<RPSChoice, RPSGameError>(RPSGameError::InvalidChoice),
    {
        match value {
            0 => Ok(RPSChoice::Rock),
            1 => Ok(RPSChoice::Paper),
            2 => Ok(RPSChoice::Scissors),
            _ => Err(RPSGameError::InvalidChoice),
        }
    }

    /// The byte discriminant of this choice.
    pub fn to_u8(self) -> (r: u8)
        ensures
            r == spec_choice_to_u8(self),
    {
        match self {
            RPSChoice::Rock => 0,
            RPSChoice::Paper => 1,
            RPSChoice::Scissors => 2,
        }
    }

    /// Whether this choice beats the other.
    pub fn beats(&self, other: &RPSChoice) -> (r: bool)
        ensures
            r == spec_beats(*self, *other),
    {
        match (self, other) {
            (RPSChoice::Rock, RPSChoice::Scissors) => true,
            (RPSChoice::Paper, RPSChoice::Rock) => true,
            (RPSChoice::Scissors, RPSChoice::Paper) => true,
            _ => false,
        }
    }
}

/// The choice a byte in 0..=2 decodes to.
pub open spec fn spec_choice_from_byte(b: u8) -> RPSChoice {
    if b == 1 {
        RPSChoice::Paper
    } else if b == 2 {
        RPSChoice::Scissors
    } else {
        RPSChoice::Rock
    }
}

/// The Rock-Paper-Scissors game logic over a universal match: moves are a
/// single choice byte, and the judged result reads both parties' choice
/// bytes from the front of the game state.
pub struct RockPaperScissors;

impl RockPaperScissors {
    /// A move is one byte holding a choice discriminant.
    pub fn validate_move(&self, move_data: &Vec<u8>) -> (r: Result<(), RPSGameError>)
        ensures
            (r matches Ok(u)) <==> (move_data@.len() >= 1 && move_data@[0] <= 2),
            move_data@.len() == 0 ==> r == Err::<(), RPSGameError>(RPSGameError::InvalidMoveData),
            move_data@.len() >= 1 && move_data@[0] > 2 ==> r == Err::<(), RPSGameError>(
                RPSGameError::InvalidChoice,
            ),
    {
        if move_data.len() < 1 {
            return Err(RPSGameError::InvalidMoveData);
        }
        if move_data[0] > 2 {
            return Err(RPSGameError::InvalidChoice);
        }
        Ok(())
    }

    /// Judges a match from the two choice bytes at the front of its game
    /// state; a short state or an invalid choice byte is rejected.
    pub fn determine_winner(&self, match_data: &crate::engine::UniversalMatch) -> (r: Result<
        GameResult,
        RPSGameError,
    >)
        ensures
            match_data.game_state@.len() < 2 ==> r == Err::<GameResult, RPSGameError>(
                RPSGameError::IncompleteGameState,
            ),
            match_data.game_state@.len() >= 2 && (match_data.game_state@[0] > 2
                || match_data.game_state@[1] > 2) ==> r == Err::<GameResult, RPSGameError>(
                RPSGameError::InvalidChoice,
            ),
            match_data.game_state@.len() >= 2 && match_data.game_state@[0] <= 2
                && match_data.game_state@[1] <= 2 ==> r == Ok::<GameResult, RPSGameError>(
                spec_round_result(
                    spec_choice_from_byte(match_data.game_state@[0]),
                    spec_choice_from_byte(match_data.game_state@[1]),
                ),
            ),
    {
        if match_data.game_state.len() < 2 {
            return Err(RPSGameError::IncompleteGameState);
        }
        let player1_choice = match RPSChoice::from_u8(match_data.game_state[0]) {
            Ok(c) => c,
            Err(_) => {
                return Err(RPSGameError::InvalidChoice);
            },
        };
        let player2_choice = match RPSChoice::from_u8(match_data.game_state[1]) {
            Ok(c) => c,
            Err(_) => {
                return Err(RPSGameError::InvalidChoice);
            },
        };
        Ok(judge_round(player1_choice, player2_choice))
    }

    /// Moves are carried as-is on the wire.
    pub fn encode_move(&self, move_data: &Vec<u8>) -> (r: Vec<u8>)
        ensures
            r@ == move_data@,
    {
        let mut out: Vec<u8> = Vec::new();
        let mut i: usize = 0;
        while i < move_data.len()
            invariant
                i <= move_data.len(),
                out@ == move_data@.subrange(0, i as int),
            decreases move_data.len() - i,
        {
            out.push(move_data[i]);
            proof {
                assert(move_data@.subrange(0, i as int).push(move_data@[i as int])
                    =~= move_data@.subrange(0, i + 1));
            }
            i = i + 1;
        }
        proof {
            assert(move_data@.subrange(0, move_data@.len() as int) =~= move_data@);
        }
        out
    }

    /// Moves are carried as-is on the wire.
    pub fn decode_move(&self, encoded: &Vec<u8>) -> (r: Result<Vec<u8>, RPSGameError>)
        ensures
            r matches Ok(v) && v@ == encoded@,
    {
        Ok(self.encode_move(encoded))
    }

    /// The default parameters of a Rock-Paper-Scissors match.
    pub fn default_config(&self) -> (r: crate::engine::GameConfig)
        ensures
            r.max_players == 2,
            r.min_bet == 10_000_000,
            r.max_bet == 100_000_000_000,
            r.rounds == 1,
            r.custom_params == vstd::array::array_fill_for_copy_types::<u8, 16>(0u8),
    {
        crate::engine::GameConfig {
            max_players: 2,
            min_bet: 10_000_000,
            max_bet: 100_000_000_000,
            rounds: 1,
            custom_params: vstd::array::array_fill_for_copy_types::<u8, 16>(0u8),
        }
    }
}

/// The serialized size of a commit-reveal round state.
pub const RPS_STATE_SIZE: usize = 76;

/// The per-round commit-reveal state of a single-round match: both parties'
/// commitments, their revealed choices once disclosed, and the reveal
/// deadline.
#[derive(Debug)]
pub struct RPSGameState {
    pub player1_commitment: [u8; 32],
    pub player2_commitment: [u8; 32],
    pub player1_revealed: Option<RPSChoice>,
    pub player2_revealed: Option<RPSChoice>,
    pub reveal_deadline: i64,
}

/// The mathematical model of a commit-reveal round state.
#[verifier::ext_equal]
pub struct RPSGameStateModel {
    pub player1_commitment: Seq<u8>,
    pub player2_commitment: Seq<u8>,
    pub player1_revealed: Option<RPSChoice>,
    pub player2_revealed: Option<RPSChoice>,
    pub reveal_deadline: i64,
}

impl View for RPSGameState {
    type V = RPSGameStateModel;

    open spec fn view(&self) -> RPSGameStateModel {
        RPSGameStateModel {
            player1_commitment: self.player1_commitment@,
            player2_commitment: self.player2_commitment@,
            player1_revealed: self.player1_revealed,
            player2_revealed: self.player2_revealed,
            reveal_deadline: self.reveal_deadline,
        }
    }
}

/// A revealed-choice slot on the wire: a presence flag, then the choice
/// byte (zero when absent).
pub open spec fn spec_rps_reveal_slot(r: Option<RPSChoice>) -> Seq<u8> {
    match r {
        Some(c) => seq![1u8, spec_choice_to_u8(c)],
        None => seq![0u8, 0u8],
    }
}

/// The serialized round state: both raw commitments, both reveal slots,
/// then the reveal deadline as 8 little-endian bytes.
pub open spec fn spec_rps_state_bytes(s: RPSGameStateModel) -> Seq<u8> {
    s.player1_commitment + s.player2_commitment + spec_rps_reveal_slot(s.player1_revealed)
        + spec_rps_reveal_slot(s.player2_revealed) + vstd::bytes::spec_u64_to_le_bytes(
        s.reveal_deadline as u64,
    )
}

/// Parses a serialized round state: the length must be exact and the reveal
/// slots canonical.
pub open spec fn spec_parse_rps_state(bytes: Seq<u8>) -> Option<RPSGameStateModel> {
    if bytes.len() != RPS_STATE_SIZE {
        None
    } else if bytes[64] == 1 && bytes[65] > 2 || bytes[64] == 0 && bytes[65] != 0 || bytes[64]
        > 1 {
        None
    } else if bytes[66] == 1 && bytes[67] > 2 || bytes[66] == 0 && bytes[67] != 0 || bytes[66]
        > 1 {
        None
    } else {
        Some(
            RPSGameStateModel {
                player1_commitment: bytes.subrange(0, 32),
                player2_commitment: bytes.subrange(32, 64),
                player1_revealed: if bytes[64] == 1 {
                    Some(spec_choice_from_byte(bytes[65]))
                } else {
                    None
                },
                player2_revealed: if bytes[66] == 1 {
                    Some(spec_choice_from_byte(bytes[67]))
                } else {
                    None
                },
                reveal_deadline: vstd::bytes::spec_u64_from_le_bytes(
                    bytes.subrange(68, 76),
                ) as i64,
            },
        )
    }
}

impl RPSGameState {
    /// Serializes this round state.
    pub fn to_bytes(&self) -> (r: Vec<u8>)
        ensures
            r@ == spec_rps_state_bytes(self@),
    {
        let mut bytes: Vec<u8> = Vec::new();
        let mut i: usize = 0;
        while i < 32
            invariant
                i <= 32,
                bytes@ == self.player1_commitment@.subrange(0, i as int),
            decreases 32 - i,
        {
            bytes.push(self.player1_commitment[i]);
            proof {
                assert(self.player1_commitment@.subrange(0, i as int).push(
                    self.player1_commitment@[i as int],
                ) =~= self.player1_commitment@.subrange(0, i + 1));
            }
            i = i + 1;
        }
        let mut j: usize = 0;
        while j < 32
            invariant
                j <= 32,
                bytes@ == self.player1_commitment@.subrange(0, 32)
                    + self.player2_commitment@.subrange(0, j as int),
            decreases 32 - j,
        {
            bytes.push(self.player2_commitment[j]);
            proof {
                assert(self.player1_commitment@.subrange(0, 32)
                    + self.player2_commitment@.subrange(0, j as int) + seq![
                    self.player2_commitment@[j as int],
                ] =~= self.player1_commitment@.subrange(0, 32)
                    + self.player2_commitment@.subrange(0, j + 1));
            }
            j = j + 1;
        }
        match self.player1_revealed {
            Some(c) => {
                bytes.push(1);
                bytes.push(c.to_u8());
            },
            None => {
                bytes.push(0);
                bytes.push(0);
            },
        }
        match self.player2_revealed {
            Some(c) => {
                bytes.push(1);
                bytes.push(c.to_u8());
            },
            None => {
                bytes.push(0);
                bytes.push(0);
            },
        }
        let mut deadline = vstd::bytes::u64_to_le_bytes(self.reveal_deadline as u64);
        bytes.append(&mut deadline);
        proof {
            assert(self.player1_commitment@.subrange(0, 32) =~= self.player1_commitment@);
            assert(self.player2_commitment@.subrange(0, 32) =~= self.player2_commitment@);
            assert(bytes@ =~= spec_rps_state_bytes(self@));
        }
        bytes
    }

    /// Deserializes a round state; a wrong length or a non-canonical reveal
    /// slot is rejected.
    pub fn from_bytes(bytes: &[u8]) -> (r: Result<RPSGameState, RPSGameError>)
        ensures
            match spec_parse_rps_state(bytes@) {
                Some(v) => r matches Ok(s) && s@ == v,
                None => r == Err::<RPSGameState, RPSGameError>(RPSGameError::InvalidStateData),
            },
    {
        if bytes.len() != RPS_STATE_SIZE {
            return Err(RPSGameError::InvalidStateData);
        }
        let f1 = bytes[64];
        let f2 = bytes[66];
        if f1 == 1 && bytes[65] > 2 || f1 == 0 && bytes[65] != 0 || f1 > 1 {
            return Err(RPSGameError::InvalidStateData);
        }
        if f2 == 1 && bytes[67] > 2 || f2 == 0 && bytes[67] != 0 || f2 > 1 {
            return Err(RPSGameError::InvalidStateData);
        }
        let player1_commitment = crate::commitment::copy32(bytes, 0);
        let player2_commitment = crate::commitment::copy32(bytes, 32);
        let player1_revealed = if f1 == 1 {
            match RPSChoice::from_u8(bytes[65]) {
                Ok(c) => Some(c),
                Err(_) => {
                    return Err(RPSGameError::InvalidStateData);
                },
            }
        } else {
            None
        };
        let player2_revealed = if f2 == 1 {
            match RPSChoice::from_u8(bytes[67]) {
                Ok(c) => Some(c),
                Err(_) => {
                    return Err(RPSGameError::InvalidStateData);
                },
            }
        } else {
            None
        };
        let deadline_u = vstd::bytes::u64_from_le_bytes(&bytes[68..76]);
        let s = RPSGameState {
            player1_commitment,
            player2_commitment,
            player1_revealed,
            player2_revealed,
            reveal_deadline: #[verifier::truncate] (deadline_u as i64),
        };
        proof {
            let v = spec_parse_rps_state(bytes@).unwrap();
            assert(s@ =~= v);
        }
        Ok(s)
    }
}

/// Codec round trip: parsing the serialization of any round state gives the
/// state back.
pub proof fn lemma_rps_state_round_trip(s: RPSGameStateModel)
    requires
        s.player1_commitment.len() == 32,
        s.player2_commitment.len() == 32,
    ensures
        spec_parse_rps_state(spec_rps_state_bytes(s)) == Some(s),
{
    let bytes = spec_rps_state_bytes(s);
    vstd::bytes::lemma_auto_spec_u64_to_from_le_bytes();
    assert(vstd::bytes::spec_u64_to_le_bytes(s.reveal_deadline as u64).len() == 8);
    assert(bytes.len() == RPS_STATE_SIZE);
    assert(bytes.subrange(0, 32) =~= s.player1_commitment);
    assert(bytes.subrange(32, 64) =~= s.player2_commitment);
    match s.player1_revealed {
        Some(c) => {
            assert(bytes[64] == 1);
            assert(bytes[65] == spec_choice_to_u8(c));
            assert(spec_choice_from_byte(spec_choice_to_u8(c)) == c);
        },
        None => {
            assert(bytes[64] == 0);
            assert(bytes[65] == 0);
        },
    }
    match s.player2_revealed {
        Some(c) => {
            assert(bytes[66] == 1);
            assert(bytes[67] == spec_choice_to_u8(c));
            assert(spec_choice_from_byte(spec_choice_to_u8(c)) == c);
        },
        None => {
            assert(bytes[66] == 0);
            assert(bytes[67] == 0);
        },
    }
    assert(bytes.subrange(68, 76) =~= vstd::bytes::spec_u64_to_le_bytes(s.reveal_deadline as u64));
    let t = s.reveal_deadline;
    assert(((t as u64) as i64) == t) by (bit_vector);
    match spec_parse_rps_state(bytes) {
        Some(v) => {
            assert(v =~= s);
        },
        None => {
            assert(false);
        },
    }
}

/// Builds the commitment for a choice. The commitment binds the choice, the
/// salt, the committing party and a caller-supplied nonce; a scheme that
/// binds only the choice and salt is forgeable by replay and is not offered.
pub fn create_commitment(choice: RPSChoice, salt: &[u8; 32], player: u64, nonce: u64) -> (r: [u8;
    32])
    ensures
        r@ == crate::commitment::spec_commit(spec_choice_to_u8(choice), salt@, player, nonce),
{
    crate::commitment::commit(choice.to_u8(), salt, player, nonce)
}

/// True iff `create_commitment(choice, salt, player, nonce)` reproduces
/// `commitment`.
pub fn verify_commitment(
    commitment: &[u8; 32],
    choice: RPSChoice,
    salt: &[u8; 32],
    player: u64,
    nonce: u64,
) -> (r: bool)
    ensures
        r == crate::commitment::spec_verify(
            commitment@,
            spec_choice_to_u8(choice),
            salt@,
            player,
            nonce,
        ),
{
    crate::commitment::verify(commitment, choice.to_u8(), salt, player, nonce)
}

/// Judges one round from both revealed choices.
pub fn judge_round(p1: RPSChoice, p2: RPSChoice) -> (r: GameResult)
    ensures
        r == spec_round_result(p1, p2),
{
    if p1 == p2 {
        GameResult::Draw
    } else if p1.beats(&p2) {
        GameResult::Player1Wins
    } else {
        GameResult::Player2Wins
    }
}

} // verus!
