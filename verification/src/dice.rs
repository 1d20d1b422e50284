//! The dice game: each party rolls two dice in 1..=6; the higher sum wins a
//! round, ties break by the highest single die and then draw. Rolls are
//! derived deterministically from a hash over the slot, match, player and
//! round, so any observer can recompute them.

use vstd::prelude::*;
use crate::commitment;
use crate::rounds::GameResult;

verus! {

#[derive(Clone, Copy, PartialEq, Eq, Structural, Debug)]
pub enum DiceGameError {
    InvalidDiceValue,
    InvalidMoveData,
    IncompleteGameState,
    InvalidData,
    NoOpponent,
    MaxRoundsReached,
    GameNotComplete,
    InvalidSeed,
}

/// One party's roll of two dice.
#[derive(Clone, Copy, PartialEq, Eq, Structural, Debug)]
pub struct DiceRoll {
    pub player: u64,
    pub dice1: u8,
    pub dice2: u8,
    pub total: u8,
}

/// The winner of one dice round: higher sum first, then the highest single
/// die, then a draw.
pub open spec fn spec_dice_winner(p1d1: u8, p1d2: u8, p2d1: u8, p2d2: u8) -> GameResult {
    if p1d1 + p1d2 > p2d1 + p2d2 {
        GameResult::Player1Wins
    } else if p2d1 + p2d2 > p1d1 + p1d2 {
        GameResult::Player2Wins
    } else {
        let p1_max = if p1d1 >= p1d2 {
            p1d1
        } else {
            p1d2
        };
        let p2_max = if p2d1 >= p2d2 {
            p2d1
        } else {
            p2d2
        };
        if p1_max > p2_max {
            GameResult::Player1Wins
        } else if p2_max > p1_max {
            GameResult::Player2Wins
        } else {
            GameResult::Draw
        }
    }
}

/// The serialized form of a roll: the player as 8 little-endian bytes, then
/// the two dice.
pub open spec fn spec_roll_bytes(r: DiceRoll) -> Seq<u8> {
    vstd::bytes::spec_u64_to_le_bytes(r.player) + seq![r.dice1, r.dice2]
}

impl DiceRoll {
    /// A roll of two dice in 1..=6.
    pub fn new(player: u64, dice1: u8, dice2: u8) -> (r: DiceRoll)
        requires
            1 <= dice1 <= 6,
            1 <= dice2 <= 6,
        ensures
            r == (DiceRoll { player, dice1, dice2, total: (dice1 + dice2) as u8 }),
    {
        DiceRoll { player, dice1, dice2, total: dice1 + dice2 }
    }

    /// Deserializes a roll; short input or dice outside 1..=6 are rejected.
    pub fn from_bytes(bytes: &[u8]) -> (r: Result<DiceRoll, DiceGameError>)
        ensures
            bytes@.len() < 10 ==> r == Err::<DiceRoll, DiceGameError>(DiceGameError::InvalidData),
            bytes@.len() >= 10 && !(1 <= bytes@[8] <= 6 && 1 <= bytes@[9] <= 6) ==> r == Err::<
                DiceRoll,
                DiceGameError,
            >(DiceGameError::InvalidDiceValue),
            bytes@.len() >= 10 && 1 <= bytes@[8] <= 6 && 1 <= bytes@[9] <= 6 ==> (
            r matches Ok(roll) && roll == (DiceRoll {
                player: vstd::bytes::spec_u64_from_le_bytes(bytes@.subrange(0, 8)),
                dice1: bytes@[8],
                dice2: bytes@[9],
                total: (bytes@[8] + bytes@[9]) as u8,
            })),
    {
        if bytes.len() < 10 {
            return Err(DiceGameError::InvalidData);
        }
        let player = vstd::bytes::u64_from_le_bytes(&bytes[0..8]);
        let dice1 = bytes[8];
        let dice2 = bytes[9];
        if !(1 <= dice1 && dice1 <= 6 && 1 <= dice2 && dice2 <= 6) {
            return Err(DiceGameError::InvalidDiceValue);
        }
        Ok(DiceRoll::new(player, dice1, dice2))
    }

    /// Serializes this roll.
    pub fn to_bytes(&self) -> (r: Vec<u8>)
        ensures
            r@ == spec_roll_bytes(*self),
    {
        let mut bytes = vstd::bytes::u64_to_le_bytes(self.player);
        bytes.push(self.dice1);
        bytes.push(self.dice2);
        proof {
            assert(bytes@ =~= spec_roll_bytes(*self));
        }
        bytes
    }
}

/// The dice game logic over a universal match: a move is two dice bytes, and
/// the judged result reads both parties' rolls from the front of the game
/// state.
pub struct DiceGame;

impl DiceGame {
    /// A move is two dice, each in 1..=6.
    pub fn validate_move(&self, move_data: &Vec<u8>) -> (r: Result<(), DiceGameError>)
        ensures
            (r matches Ok(u)) <==> (move_data@.len() >= 2 && 1 <= move_data@[0] <= 6 && 1
                <= move_data@[1] <= 6),
            move_data@.len() < 2 ==> r == Err::<(), DiceGameError>(DiceGameError::InvalidMoveData),
            move_data@.len() >= 2 && !(1 <= move_data@[0] <= 6 && 1 <= move_data@[1] <= 6) ==> r
                == Err::<(), DiceGameError>(DiceGameError::InvalidDiceValue),
    {
        if move_data.len() < 2 {
            return Err(DiceGameError::InvalidMoveData);
        }
        let dice1 = move_data[0];
        let dice2 = move_data[1];
        if !(1 <= dice1 && dice1 <= 6) {
            return Err(DiceGameError::InvalidDiceValue);
        }
        if !(1 <= dice2 && dice2 <= 6) {
            return Err(DiceGameError::InvalidDiceValue);
        }
        Ok(())
    }

    /// Judges a match from the four dice bytes at the front of its game
    /// state: the creator's two dice, then the opponent's. A short state or
    /// a die outside 1..=6 is rejected.
    pub fn determine_winner(&self, match_data: &crate::engine::UniversalMatch) -> (r: Result<
        GameResult,
        DiceGameError,
    >)
        ensures
            match_data.game_state@.len() < 4 ==> r == Err::<GameResult, DiceGameError>(
                DiceGameError::IncompleteGameState,
            ),
            match_data.game_state@.len() >= 4 && !(forall|i: int|
                0 <= i < 4 ==> 1 <= #[trigger] match_data.game_state@[i] <= 6) ==> r == Err::<
                GameResult,
                DiceGameError,
            >(DiceGameError::InvalidDiceValue),
            match_data.game_state@.len() >= 4 && (forall|i: int|
                0 <= i < 4 ==> 1 <= #[trigger] match_data.game_state@[i] <= 6) ==> r == Ok::<
                GameResult,
                DiceGameError,
            >(
                spec_dice_winner(
                    match_data.game_state@[0],
                    match_data.game_state@[1],
                    match_data.game_state@[2],
                    match_data.game_state@[3],
                ),
            ),
    {
        if match_data.game_state.len() < 4 {
            return Err(DiceGameError::IncompleteGameState);
        }
        let p1d1 = match_data.game_state[0];
        let p1d2 = match_data.game_state[1];
        let p2d1 = match_data.game_state[2];
        let p2d2 = match_data.game_state[3];
        if !(1 <= p1d1 && p1d1 <= 6 && 1 <= p1d2 && p1d2 <= 6 && 1 <= p2d1 && p2d1 <= 6 && 1
            <= p2d2 && p2d2 <= 6) {
            return Err(DiceGameError::InvalidDiceValue);
        }
        let total1 = p1d1 + p1d2;
        let total2 = p2d1 + p2d2;
        if total1 > total2 {
            Ok(GameResult::Player1Wins)
        } else if total2 > total1 {
            Ok(GameResult::Player2Wins)
        } else {
            let p1_max = if p1d1 >= p1d2 {
                p1d1
            } else {
                p1d2
            };
            let p2_max = if p2d1 >= p2d2 {
                p2d1
            } else {
                p2d2
            };
            if p1_max > p2_max {
                Ok(GameResult::Player1Wins)
            } else if p2_max > p1_max {
                Ok(GameResult::Player2Wins)
            } else {
                Ok(GameResult::Draw)
            }
        }
    }
}

/// How many of the first `n` rounds each party won on the dice sum.
pub open spec fn spec_p1_round_wins(p1: Seq<DiceRoll>, p2: Seq<DiceRoll>, n: int) -> int
    decreases n,
{
    if n <= 0 {
        0
    } else {
        spec_p1_round_wins(p1, p2, n - 1) + if p1[n - 1].total > p2[n - 1].total {
            1int
        } else {
            0int
        }
    }
}

/// How many of the first `n` rounds the second party won on the dice sum.
pub open spec fn spec_p2_round_wins(p1: Seq<DiceRoll>, p2: Seq<DiceRoll>, n: int) -> int
    decreases n,
{
    if n <= 0 {
        0
    } else {
        spec_p2_round_wins(p1, p2, n - 1) + if p2[n - 1].total > p1[n - 1].total {
            1int
        } else {
            0int
        }
    }
}

/// The dice game's state for a multi-round match: the first party's rolls
/// fill first, then the second party's.
#[derive(Debug)]
pub struct DiceGameState {
    pub player1_rolls: Vec<DiceRoll>,
    pub player2_rolls: Vec<DiceRoll>,
    pub current_round: u8,
    pub max_rounds: u8,
    pub seed: [u8; 32],
}

impl DiceGameState {
    /// Both parties' roll lists stay within the round count; the first
    /// party's list fills first, and the round counter never runs ahead of
    /// the second party's rolls.
    pub open spec fn wf(self) -> bool {
        &&& self.player1_rolls.len() <= self.max_rounds
        &&& self.player2_rolls.len() <= self.max_rounds
        &&& self.player2_rolls.len() <= self.player1_rolls.len()
        &&& self.current_round <= self.player2_rolls.len()
    }

    /// A fresh state for `max_rounds` rounds under `seed`.
    pub fn new(max_rounds: u8, seed: [u8; 32]) -> (r: DiceGameState)
        ensures
            r.player1_rolls@ == Seq::<DiceRoll>::empty(),
            r.player2_rolls@ == Seq::<DiceRoll>::empty(),
            r.current_round == 0,
            r.max_rounds == max_rounds,
            r.seed == seed,
            r.wf(),
    {
        DiceGameState {
            player1_rolls: Vec::new(),
            player2_rolls: Vec::new(),
            current_round: 0,
            max_rounds,
            seed,
        }
    }

    /// Records a roll of two dice in 1..=6: the first party's list fills
    /// first, then the second party's; once both lists are full the roll is
    /// rejected. The round counter advances whenever the lists draw level.
    pub fn add_roll(&mut self, player: u64, dice1: u8, dice2: u8) -> (r: Result<
        (),
        DiceGameError,
    >)
        requires
            old(self).wf(),
        ensures
            final(self).wf(),
            !(1 <= dice1 <= 6 && 1 <= dice2 <= 6) ==> r == Err::<(), DiceGameError>(
                DiceGameError::InvalidDiceValue,
            ) && *final(self) == *old(self),
            1 <= dice1 <= 6 && 1 <= dice2 <= 6 && old(self).player1_rolls.len() >= old(
                self,
            ).max_rounds && old(self).player2_rolls.len() >= old(self).max_rounds ==> r == Err::<
                (),
                DiceGameError,
            >(DiceGameError::MaxRoundsReached) && *final(self) == *old(self),
            1 <= dice1 <= 6 && 1 <= dice2 <= 6 && old(self).player1_rolls.len() < old(
                self,
            ).max_rounds ==> (r matches Ok(u) && final(self).player1_rolls@ == old(
                self,
            ).player1_rolls@.push(
                (DiceRoll { player, dice1, dice2, total: (dice1 + dice2) as u8 }),
            ) && final(self).player2_rolls == old(self).player2_rolls),
            1 <= dice1 <= 6 && 1 <= dice2 <= 6 && old(self).player1_rolls.len() >= old(
                self,
            ).max_rounds && old(self).player2_rolls.len() < old(self).max_rounds ==> (
            r matches Ok(u) && final(self).player2_rolls@ == old(self).player2_rolls@.push(
                (DiceRoll { player, dice1, dice2, total: (dice1 + dice2) as u8 }),
            ) && final(self).player1_rolls == old(self).player1_rolls),
            r matches Ok(u) ==> final(self).current_round == (
            if final(self).player1_rolls.len() == final(self).player2_rolls.len() {
                (old(self).current_round + 1) as u8
            } else {
                old(self).current_round
            }) && final(self).max_rounds == old(self).max_rounds && final(self).seed == old(
                self,
            ).seed,
    {
        if !(1 <= dice1 && dice1 <= 6 && 1 <= dice2 && dice2 <= 6) {
            return Err(DiceGameError::InvalidDiceValue);
        }
        let roll = DiceRoll::new(player, dice1, dice2);
        if self.player1_rolls.len() < self.max_rounds as usize {
            self.player1_rolls.push(roll);
        } else if self.player2_rolls.len() < self.max_rounds as usize {
            self.player2_rolls.push(roll);
        } else {
            return Err(DiceGameError::MaxRoundsReached);
        }
        if self.player1_rolls.len() == self.player2_rolls.len() {
            self.current_round = self.current_round + 1;
        }
        Ok(())
    }

    /// Judges the whole game once every round is rolled: the party that won
    /// more rounds on the dice sum wins; equal counts draw.
    pub fn get_winner(&self) -> (r: Result<GameResult, DiceGameError>)
        requires
            self.wf(),
        ensures
            (r matches Ok(res)) <==> (self.current_round == self.max_rounds
                && self.player1_rolls.len() == self.max_rounds && self.player2_rolls.len()
                == self.max_rounds),
            r matches Err(e) ==> e == DiceGameError::GameNotComplete,
            r matches Ok(res) ==> res == (
            {
                let w1 = spec_p1_round_wins(
                    self.player1_rolls@,
                    self.player2_rolls@,
                    self.max_rounds as int,
                );
                let w2 = spec_p2_round_wins(
                    self.player1_rolls@,
                    self.player2_rolls@,
                    self.max_rounds as int,
                );
                if w1 > w2 {
                    GameResult::Player1Wins
                } else if w2 > w1 {
                    GameResult::Player2Wins
                } else {
                    GameResult::Draw
                }
            }),
    {
        if self.current_round != self.max_rounds {
            return Err(DiceGameError::GameNotComplete);
        }
        if self.player1_rolls.len() != self.max_rounds as usize || self.player2_rolls.len()
            != self.max_rounds as usize {
            return Err(DiceGameError::GameNotComplete);
        }
        let mut player1_wins: usize = 0;
        let mut player2_wins: usize = 0;
        let mut i: usize = 0;
        while i < self.max_rounds as usize
            invariant
                i <= self.max_rounds,
                self.player1_rolls.len() == self.max_rounds,
                self.player2_rolls.len() == self.max_rounds,
                player1_wins == spec_p1_round_wins(
                    self.player1_rolls@,
                    self.player2_rolls@,
                    i as int,
                ),
                player2_wins == spec_p2_round_wins(
                    self.player1_rolls@,
                    self.player2_rolls@,
                    i as int,
                ),
                player1_wins <= i,
                player2_wins <= i,
            decreases self.max_rounds - i,
        {
            let p1_roll = &self.player1_rolls[i];
            let p2_roll = &self.player2_rolls[i];
            if p1_roll.total > p2_roll.total {
                player1_wins = player1_wins + 1;
            } else if p2_roll.total > p1_roll.total {
                player2_wins = player2_wins + 1;
            }
            i = i + 1;
        }
        if player1_wins > player2_wins {
            Ok(GameResult::Player1Wins)
        } else if player2_wins > player1_wins {
            Ok(GameResult::Player2Wins)
        } else {
            Ok(GameResult::Draw)
        }
    }
}

/// The bytes hashed to derive a party's dice for one round.
pub open spec fn spec_dice_roll_seed(slot: u64, match_id: u64, player: u64, round: u8) -> Seq<u8> {
    vstd::bytes::spec_u64_to_le_bytes(slot) + vstd::bytes::spec_u64_to_le_bytes(match_id)
        + vstd::bytes::spec_u64_to_le_bytes(player) + seq![round]
}

/// Derives a party's two dice for one round from the hash of the slot, the
/// match, the player and the round number: any observer can recompute them.
pub fn generate_dice_rolls(slot: u64, match_id: u64, player: u64, round: u8) -> (r: (u8, u8))
    ensures
        r.0 == commitment::sha256_of(spec_dice_roll_seed(slot, match_id, player, round))[0] % 6 + 1,
        r.1 == commitment::sha256_of(spec_dice_roll_seed(slot, match_id, player, round))[1] % 6 + 1,
        1 <= r.0 <= 6,
        1 <= r.1 <= 6,
{
    let mut buf = vstd::bytes::u64_to_le_bytes(slot);
    let mut mid = vstd::bytes::u64_to_le_bytes(match_id);
    buf.append(&mut mid);
    let mut pid = vstd::bytes::u64_to_le_bytes(player);
    buf.append(&mut pid);
    buf.push(round);
    proof {
        assert(buf@ =~= spec_dice_roll_seed(slot, match_id, player, round));
    }
    let hash = commitment::sha256(&buf);
    let dice1 = hash[0] % 6 + 1;
    let dice2 = hash[1] % 6 + 1;
    (dice1, dice2)
}

} // verus!
