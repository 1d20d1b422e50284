//! Round manager: aggregates repeated single-round outcomes into a
//! multi-round match result. A won round scores for the winner and resets the
//! draw streak; a drawn round is replayed without counting towards the rounds
//! played, and too many consecutive draws force a resolution. When all rounds
//! are played without a majority winner, the score decides, and a perfect tie
//! also forces a resolution.

use vstd::prelude::*;

verus! {

/// The outcome of a single judged round (or of a whole match).
#[derive(Clone, Copy, PartialEq, Eq, Structural, Debug)]
pub enum GameResult {
    Player1Wins,
    Player2Wins,
    Draw,
    Cancelled,
}

#[derive(Clone, Copy, PartialEq, Eq, Structural, Debug)]
pub enum RoundManagerError {
    InvalidData,
    InvalidGameResult,
    RoundLimitExceeded,
    MatchAlreadyCompleted,
}

/// One recorded round: its number, outcome, timestamp and game-specific data.
#[derive(Debug)]
pub struct RoundResult {
    pub round_number: u8,
    pub result: GameResult,
    pub timestamp: i64,
    pub round_data: Vec<u8>,
}

/// The mathematical model of a recorded round.
#[verifier::ext_equal]
pub struct RoundEntryModel {
    pub round_number: u8,
    pub result: GameResult,
    pub timestamp: i64,
    pub data: Seq<u8>,
}

impl View for RoundResult {
    type V = RoundEntryModel;

    open spec fn view(&self) -> RoundEntryModel {
        RoundEntryModel {
            round_number: self.round_number,
            result: self.result,
            timestamp: self.timestamp,
            data: self.round_data@,
        }
    }
}

/// Tracks scores, played rounds, the draw streak and the round history of a
/// multi-round match.
#[derive(Debug)]
pub struct RoundManager {
    pub total_rounds: u8,
    pub rounds_played: u8,
    pub player1_score: u8,
    pub player2_score: u8,
    pub round_history: Vec<RoundResult>,
    pub rounds_to_win: u8,
    pub consecutive_draws: u8,
    pub max_consecutive_draws: u8,
}

/// The mathematical model of a round manager.
#[verifier::ext_equal]
pub struct RoundManagerModel {
    pub total_rounds: u8,
    pub rounds_played: u8,
    pub player1_score: u8,
    pub player2_score: u8,
    pub history: Seq<RoundEntryModel>,
    pub rounds_to_win: u8,
    pub consecutive_draws: u8,
    pub max_consecutive_draws: u8,
}

impl View for RoundManager {
    type V = RoundManagerModel;

    open spec fn view(&self) -> RoundManagerModel {
        RoundManagerModel {
            total_rounds: self.total_rounds,
            rounds_played: self.rounds_played,
            player1_score: self.player1_score,
            player2_score: self.player2_score,
            history: self.round_history@.map_values(|r: RoundResult| r@),
            rounds_to_win: self.rounds_to_win,
            consecutive_draws: self.consecutive_draws,
            max_consecutive_draws: self.max_consecutive_draws,
        }
    }
}

/// Well-formedness: the threshold is a majority of the configured rounds, and
/// every counter stays within its bound.
pub open spec fn rm_wf(m: RoundManagerModel) -> bool {
    &&& m.total_rounds >= 1
    &&& m.max_consecutive_draws >= 1
    &&& m.rounds_to_win == m.total_rounds / 2 + 1
    &&& m.player1_score <= m.rounds_to_win
    &&& m.player2_score <= m.rounds_to_win
    &&& m.consecutive_draws <= m.max_consecutive_draws
    &&& m.rounds_played <= m.total_rounds
}

/// The match is still undecided: no score has reached the threshold, rounds
/// remain, and the draw streak has not reached its cap.
pub open spec fn rm_in_progress(m: RoundManagerModel) -> bool {
    &&& m.player1_score < m.rounds_to_win
    &&& m.player2_score < m.rounds_to_win
    &&& m.rounds_played < m.total_rounds
    &&& m.consecutive_draws < m.max_consecutive_draws
}

/// A fresh round manager for a best-of-`total_rounds` match.
pub open spec fn spec_new_rm(total_rounds: u8, max_consecutive_draws: u8) -> RoundManagerModel {
    RoundManagerModel {
        total_rounds,
        rounds_played: 0,
        player1_score: 0,
        player2_score: 0,
        history: Seq::empty(),
        rounds_to_win: (total_rounds / 2 + 1) as u8,
        consecutive_draws: 0,
        max_consecutive_draws,
    }
}

/// The state after recording one round outcome: the round is appended to the
/// history; a win scores for the winner, counts the round and resets the draw
/// streak; a draw only lengthens the draw streak.
pub open spec fn spec_step(
    m: RoundManagerModel,
    result: GameResult,
    timestamp: i64,
    data: Seq<u8>,
) -> RoundManagerModel {
    let entry = (RoundEntryModel {
        round_number: (m.rounds_played + 1) as u8,
        result,
        timestamp,
        data,
    });
    let h = (RoundManagerModel { history: m.history.push(entry), ..m });
    match result {
        GameResult::Player1Wins => RoundManagerModel {
            rounds_played: (m.rounds_played + 1) as u8,
            player1_score: (m.player1_score + 1) as u8,
            consecutive_draws: 0,
            ..h
        },
        GameResult::Player2Wins => RoundManagerModel {
            rounds_played: (m.rounds_played + 1) as u8,
            player2_score: (m.player2_score + 1) as u8,
            consecutive_draws: 0,
            ..h
        },
        GameResult::Draw => RoundManagerModel {
            consecutive_draws: (m.consecutive_draws + 1) as u8,
            ..h
        },
        GameResult::Cancelled => h,
    }
}

/// What the manager signals for one round outcome, given the state before the
/// round was recorded.
pub open spec fn spec_step_outcome(m: RoundManagerModel, result: GameResult) -> RoundOutcome {
    match result {
        GameResult::Player1Wins => if m.player1_score + 1 >= m.rounds_to_win {
            RoundOutcome::MatchWon(GameResult::Player1Wins)
        } else if m.rounds_played + 1 >= m.total_rounds {
            spec_score_outcome(m.player1_score + 1, m.player2_score as int)
        } else {
            RoundOutcome::ContinueMatch
        },
        GameResult::Player2Wins => if m.player2_score + 1 >= m.rounds_to_win {
            RoundOutcome::MatchWon(GameResult::Player2Wins)
        } else if m.rounds_played + 1 >= m.total_rounds {
            spec_score_outcome(m.player1_score as int, m.player2_score + 1)
        } else {
            RoundOutcome::ContinueMatch
        },
        GameResult::Draw => if m.consecutive_draws + 1 >= m.max_consecutive_draws {
            RoundOutcome::ForcedResolution
        } else {
            RoundOutcome::DrawRequiresReplay
        },
        GameResult::Cancelled => RoundOutcome::ForcedResolution,
    }
}

/// Resolution by score comparison once all rounds are played: the higher
/// score wins; a perfect tie forces a resolution.
pub open spec fn spec_score_outcome(p1: int, p2: int) -> RoundOutcome {
    if p1 > p2 {
        RoundOutcome::MatchWon(GameResult::Player1Wins)
    } else if p2 > p1 {
        RoundOutcome::MatchWon(GameResult::Player2Wins)
    } else {
        RoundOutcome::ForcedResolution
    }
}

/// Whether the summed round timestamps are even. Parity is taken per entry,
/// so the sum never overflows.
pub open spec fn spec_history_parity_even(h: Seq<RoundEntryModel>) -> bool
    decreases h.len(),
{
    if h.len() == 0 {
        true
    } else {
        spec_history_parity_even(h.drop_last()) == ((h.last().timestamp as u64) % 2 == 0)
    }
}

/// The forced-resolution decision: score comparison first; on a perfect tie,
/// the parity of the summed round timestamps decides. The parity tie-break is
/// weak and manipulable; it is kept behind this interface so a verifiable
/// randomness source can replace it without touching callers.
pub open spec fn spec_forced_resolution(m: RoundManagerModel) -> GameResult {
    if m.player1_score > m.player2_score {
        GameResult::Player1Wins
    } else if m.player2_score > m.player1_score {
        GameResult::Player2Wins
    } else if spec_history_parity_even(m.history) {
        GameResult::Player1Wins
    } else {
        GameResult::Player2Wins
    }
}

/// The signal returned to the caller after each recorded round.
#[derive(Clone, Copy, PartialEq, Eq, Structural, Debug)]
pub enum RoundOutcome {
    /// The match continues with the next round.
    ContinueMatch,
    /// A party has won the whole match.
    MatchWon(GameResult),
    /// The round was drawn and the same round number is replayed.
    DrawRequiresReplay,
    /// Too many draws (or a perfect tie after all rounds): resolve by
    /// `forced_resolution`.
    ForcedResolution,
}

/// A snapshot of how far the match has progressed.
#[derive(Clone, Copy, Debug)]
pub struct MatchProgress {
    pub rounds_played: u8,
    pub total_rounds: u8,
    pub player1_score: u8,
    pub player2_score: u8,
    pub rounds_remaining: u8,
    pub is_match_point: bool,
    pub leader: Option<u8>,
}

impl GameResult {
    /// The serialized byte of a result.
    pub fn to_u8(&self) -> (r: u8)
        ensures
            r == spec_result_byte(*self),
    {
        match self {
            GameResult::Player1Wins => 1,
            GameResult::Player2Wins => 2,
            GameResult::Draw => 0,
            GameResult::Cancelled => 3,
        }
    }

    /// Decodes a result byte; only the three round outcomes are accepted.
    pub fn from_u8(value: u8) -> (r: Result<GameResult, RoundManagerError>)
        ensures
            value <= 2 ==> r == Ok::<GameResult, RoundManagerError>(spec_result_from_byte(value)),
            value > 2 ==> r == Err::<GameResult, RoundManagerError>(
                RoundManagerError::InvalidGameResult,
            ),
    {
        match value {
            0 => Ok(GameResult::Draw),
            1 => Ok(GameResult::Player1Wins),
            2 => Ok(GameResult::Player2Wins),
            _ => Err(RoundManagerError::InvalidGameResult),
        }
    }
}

/// The serialized byte of a round result.
pub open spec fn spec_result_byte(r: GameResult) -> u8 {
    match r {
        GameResult::Player1Wins => 1,
        GameResult::Player2Wins => 2,
        GameResult::Draw => 0,
        GameResult::Cancelled => 3,
    }
}

/// The round result a byte in 0..=2 decodes to.
pub open spec fn spec_result_from_byte(b: u8) -> GameResult {
    if b == 1 {
        GameResult::Player1Wins
    } else if b == 2 {
        GameResult::Player2Wins
    } else {
        GameResult::Draw
    }
}

impl RoundManager {
    /// Creates a manager for a best-of-`total_rounds` match that forces a
    /// resolution after `max_consecutive_draws` consecutive draws.
    pub fn new(total_rounds: u8, max_consecutive_draws: u8) -> (r: RoundManager)
        requires
            total_rounds >= 1,
            max_consecutive_draws >= 1,
        ensures
            r@ == spec_new_rm(total_rounds, max_consecutive_draws),
            rm_wf(r@),
            rm_in_progress(r@),
    {
        let rounds_to_win = total_rounds / 2 + 1;
        let r = RoundManager {
            total_rounds,
            rounds_played: 0,
            player1_score: 0,
            player2_score: 0,
            round_history: Vec::new(),
            rounds_to_win,
            consecutive_draws: 0,
            max_consecutive_draws,
        };
        proof {
            assert(r@.history =~= spec_new_rm(total_rounds, max_consecutive_draws).history);
            assert(r@ =~= spec_new_rm(total_rounds, max_consecutive_draws));
        }
        r
    }

    /// Records one judged round and signals how the match proceeds. The round
    /// outcome must be one of the three judged results; the match must still
    /// be undecided.
    pub fn process_round_result(
        &mut self,
        result: GameResult,
        timestamp: i64,
        round_data: Vec<u8>,
    ) -> (out: RoundOutcome)
        requires
            rm_wf(old(self)@),
            rm_in_progress(old(self)@),
            result != GameResult::Cancelled,
        ensures
            final(self)@ == spec_step(old(self)@, result, timestamp, round_data@),
            out == spec_step_outcome(old(self)@, result),
            rm_wf(final(self)@),
    {
        let ghost pre = self@;
        let entry = RoundResult {
            round_number: self.rounds_played + 1,
            result,
            timestamp,
            round_data,
        };
        self.round_history.push(entry);
        proof {
            assert(self@.history =~= pre.history.push(
                spec_step(pre, result, timestamp, round_data@).history.last(),
            ));
        }
        match result {
            GameResult::Player1Wins => {
                self.rounds_played = self.rounds_played + 1;
                self.player1_score = self.player1_score + 1;
                self.consecutive_draws = 0;
                proof {
                    assert(self@ =~= spec_step(pre, result, timestamp, round_data@));
                }
                if self.player1_score >= self.rounds_to_win {
                    RoundOutcome::MatchWon(GameResult::Player1Wins)
                } else if self.rounds_played >= self.total_rounds {
                    self.score_outcome()
                } else {
                    RoundOutcome::ContinueMatch
                }
            },
            GameResult::Player2Wins => {
                self.rounds_played = self.rounds_played + 1;
                self.player2_score = self.player2_score + 1;
                self.consecutive_draws = 0;
                proof {
                    assert(self@ =~= spec_step(pre, result, timestamp, round_data@));
                }
                if self.player2_score >= self.rounds_to_win {
                    RoundOutcome::MatchWon(GameResult::Player2Wins)
                } else if self.rounds_played >= self.total_rounds {
                    self.score_outcome()
                } else {
                    RoundOutcome::ContinueMatch
                }
            },
            GameResult::Draw | GameResult::Cancelled => {
                self.consecutive_draws = self.consecutive_draws + 1;
                proof {
                    assert(self@ =~= spec_step(pre, result, timestamp, round_data@));
                }
                if self.consecutive_draws >= self.max_consecutive_draws {
                    RoundOutcome::ForcedResolution
                } else {
                    RoundOutcome::DrawRequiresReplay
                }
            },
        }
    }

    /// Resolution by score comparison.
    fn score_outcome(&self) -> (out: RoundOutcome)
        ensures
            out == spec_score_outcome(self.player1_score as int, self.player2_score as int),
    {
        if self.player1_score > self.player2_score {
            RoundOutcome::MatchWon(GameResult::Player1Wins)
        } else if self.player2_score > self.player1_score {
            RoundOutcome::MatchWon(GameResult::Player2Wins)
        } else {
            RoundOutcome::ForcedResolution
        }
    }

    /// A snapshot of the current progress of the match.
    pub fn get_match_status(&self) -> (p: MatchProgress)
        requires
            rm_wf(self@),
        ensures
            p.rounds_played == self.rounds_played,
            p.total_rounds == self.total_rounds,
            p.player1_score == self.player1_score,
            p.player2_score == self.player2_score,
            p.rounds_remaining == vstd::math::min(
                self.rounds_to_win - self.player1_score,
                self.rounds_to_win - self.player2_score,
            ),
            p.is_match_point == (self.player1_score == self.rounds_to_win - 1
                || self.player2_score == self.rounds_to_win - 1),
            p.leader == (if self.player1_score > self.player2_score {
                Some(1u8)
            } else if self.player2_score > self.player1_score {
                Some(2u8)
            } else {
                None::<u8>
            }),
    {
        MatchProgress {
            rounds_played: self.rounds_played,
            total_rounds: self.total_rounds,
            player1_score: self.player1_score,
            player2_score: self.player2_score,
            rounds_remaining: self.get_minimum_rounds_remaining(),
            is_match_point: self.is_match_point(),
            leader: self.get_current_leader(),
        }
    }

    /// The fewest further rounds either party needs to reach the threshold.
    fn get_minimum_rounds_remaining(&self) -> (r: u8)
        requires
            rm_wf(self@),
        ensures
            r == vstd::math::min(
                self.rounds_to_win - self.player1_score,
                self.rounds_to_win - self.player2_score,
            ),
    {
        let p1_needed = self.rounds_to_win - self.player1_score;
        let p2_needed = self.rounds_to_win - self.player2_score;
        if p1_needed < p2_needed {
            p1_needed
        } else {
            p2_needed
        }
    }

    /// Whether either party is one round away from winning the match.
    fn is_match_point(&self) -> (r: bool)
        requires
            rm_wf(self@),
        ensures
            r == (self.player1_score == self.rounds_to_win - 1
                || self.player2_score == self.rounds_to_win - 1),
    {
        self.player1_score == self.rounds_to_win - 1
            || self.player2_score == self.rounds_to_win - 1
    }

    /// The party currently ahead on score, if any.
    fn get_current_leader(&self) -> (r: Option<u8>)
        ensures
            r == (if self.player1_score > self.player2_score {
                Some(1u8)
            } else if self.player2_score > self.player1_score {
                Some(2u8)
            } else {
                None::<u8>
            }),
    {
        if self.player1_score > self.player2_score {
            Some(1)
        } else if self.player2_score > self.player1_score {
            Some(2)
        } else {
            None
        }
    }

    /// The forced-resolution decision for this manager's state.
    pub fn forced_resolution(&self) -> (r: GameResult)
        ensures
            r == spec_forced_resolution(self@),
    {
        if self.player1_score > self.player2_score {
            return GameResult::Player1Wins;
        }
        if self.player2_score > self.player1_score {
            return GameResult::Player2Wins;
        }
        let ghost h = self@.history;
        let mut even: bool = true;
        let mut i: usize = 0;
        while i < self.round_history.len()
            invariant
                i <= self.round_history.len(),
                h == self@.history,
                h.len() == self.round_history.len(),
                forall|j: int| 0 <= j < h.len() ==> h[j] == self.round_history@[j]@,
                even == spec_history_parity_even(h.subrange(0, i as int)),
            decreases self.round_history.len() - i,
        {
            let t = self.round_history[i].timestamp;
            let entry_even = (t as u64) % 2 == 0;
            even = even == entry_even;
            proof {
                assert(h.subrange(0, i + 1).drop_last() =~= h.subrange(0, i as int));
                assert(h.subrange(0, i + 1).last() == h[i as int]);
            }
            i = i + 1;
        }
        proof {
            assert(h.subrange(0, h.len() as int) =~= h);
        }
        if even {
            GameResult::Player1Wins
        } else {
            GameResult::Player2Wins
        }
    }
}

/// The manager fits the serialized form: at most 255 recorded rounds, each
/// with at most 255 bytes of round data and a judged (not cancelled) result.
pub open spec fn rm_serializable(m: RoundManagerModel) -> bool {
    &&& m.history.len() <= 255
    &&& forall|i: int|
        0 <= i < m.history.len() ==> (#[trigger] m.history[i]).data.len() <= 255
            && m.history[i].result != GameResult::Cancelled
}

/// The serialized form of one recorded round: round number, result byte,
/// timestamp as 8 little-endian bytes, data length, data.
pub open spec fn spec_entry_bytes(e: RoundEntryModel) -> Seq<u8> {
    seq![e.round_number, spec_result_byte(e.result)]
        + vstd::bytes::spec_u64_to_le_bytes(e.timestamp as u64) + seq![e.data.len() as u8] + e.data
}

/// The serialized round history, in order.
pub open spec fn spec_history_bytes(h: Seq<RoundEntryModel>) -> Seq<u8>
    decreases h.len(),
{
    if h.len() == 0 {
        Seq::empty()
    } else {
        spec_entry_bytes(h.first()) + spec_history_bytes(h.drop_first())
    }
}

/// The serialized round manager: the seven counters, the history length,
/// then the serialized history.
pub open spec fn spec_rm_bytes(m: RoundManagerModel) -> Seq<u8> {
    seq![
        m.total_rounds,
        m.rounds_played,
        m.player1_score,
        m.player2_score,
        m.rounds_to_win,
        m.consecutive_draws,
        m.max_consecutive_draws,
        m.history.len() as u8,
    ] + spec_history_bytes(m.history)
}

/// Parses `count` serialized rounds from the front of `bytes`, returning the
/// rounds and the remaining bytes, or nothing if the bytes are malformed.
pub open spec fn spec_parse_entries(bytes: Seq<u8>, count: nat) -> Option<
    (Seq<RoundEntryModel>, Seq<u8>),
>
    decreases count,
{
    if count == 0 {
        Some((Seq::empty(), bytes))
    } else if bytes.len() < 11 {
        None
    } else if bytes[1] > 2 {
        None
    } else {
        let dlen = bytes[10] as int;
        if bytes.len() < 11 + dlen {
            None
        } else {
            let entry = (RoundEntryModel {
                round_number: bytes[0],
                result: spec_result_from_byte(bytes[1]),
                timestamp: vstd::bytes::spec_u64_from_le_bytes(bytes.subrange(2, 10)) as i64,
                data: bytes.subrange(11, 11 + dlen),
            });
            match spec_parse_entries(bytes.skip(11 + dlen), (count - 1) as nat) {
                None => None,
                Some((entries, rest)) => Some((seq![entry] + entries, rest)),
            }
        }
    }
}

/// Parses a serialized round manager. The parse succeeds exactly on the
/// serializations of well-formed managers, with nothing left over.
pub open spec fn spec_parse_rm(bytes: Seq<u8>) -> Option<RoundManagerModel> {
    if bytes.len() < 8 {
        None
    } else {
        match spec_parse_entries(bytes.skip(8), bytes[7] as nat) {
            None => None,
            Some((entries, rest)) => if rest.len() != 0 {
                None
            } else {
                let m = (RoundManagerModel {
                    total_rounds: bytes[0],
                    rounds_played: bytes[1],
                    player1_score: bytes[2],
                    player2_score: bytes[3],
                    rounds_to_win: bytes[4],
                    consecutive_draws: bytes[5],
                    max_consecutive_draws: bytes[6],
                    history: entries,
                });
                if rm_wf(m) {
                    Some(m)
                } else {
                    None
                }
            },
        }
    }
}

/// Appends all of `src` to `dst`.
fn push_bytes(dst: &mut Vec<u8>, src: &Vec<u8>)
    ensures
        final(dst)@ == old(dst)@ + src@,
{
    let mut i: usize = 0;
    while i < src.len()
        invariant
            i <= src.len(),
            dst@ == old(dst)@ + src@.subrange(0, i as int),
        decreases src.len() - i,
    {
        dst.push(src[i]);
        proof {
            assert(old(dst)@ + src@.subrange(0, i as int) + seq![src@[i as int]] =~= old(dst)@
                + src@.subrange(0, i + 1));
        }
        i = i + 1;
    }
    proof {
        assert(old(dst)@ + src@.subrange(0, src@.len() as int) =~= old(dst)@ + src@);
    }
}

impl RoundManager {
    /// Serializes this manager. The counters come first, then each recorded
    /// round in order.
    pub fn to_bytes(&self) -> (r: Vec<u8>)
        requires
            rm_serializable(self@),
        ensures
            r@ == spec_rm_bytes(self@),
    {
        let mut bytes: Vec<u8> = Vec::new();
        bytes.push(self.total_rounds);
        bytes.push(self.rounds_played);
        bytes.push(self.player1_score);
        bytes.push(self.player2_score);
        bytes.push(self.rounds_to_win);
        bytes.push(self.consecutive_draws);
        bytes.push(self.max_consecutive_draws);
        bytes.push(self.round_history.len() as u8);
        let ghost h = self@.history;
        proof {
            assert(bytes@ + spec_history_bytes(h.skip(0)) =~= spec_rm_bytes(self@)) by {
                assert(h.skip(0) =~= h);
            }
        }
        let mut i: usize = 0;
        while i < self.round_history.len()
            invariant
                i <= self.round_history.len(),
                h == self@.history,
                h.len() == self.round_history.len(),
                forall|j: int| 0 <= j < h.len() ==> h[j] == self.round_history@[j]@,
                rm_serializable(self@),
                bytes@ + spec_history_bytes(h.skip(i as int)) == spec_rm_bytes(self@),
            decreases self.round_history.len() - i,
        {
            let ghost pre = bytes@;
            let e = &self.round_history[i];
            bytes.push(e.round_number);
            bytes.push(e.result.to_u8());
            let mut ts = vstd::bytes::u64_to_le_bytes(e.timestamp as u64);
            bytes.append(&mut ts);
            bytes.push(e.round_data.len() as u8);
            push_bytes(&mut bytes, &e.round_data);
            proof {
                assert(bytes@ =~= pre + spec_entry_bytes(h[i as int]));
                let tail = h.skip(i as int);
                assert(tail.first() == h[i as int]);
                assert(tail.drop_first() =~= h.skip(i + 1));
                assert(spec_history_bytes(tail) == spec_entry_bytes(h[i as int])
                    + spec_history_bytes(h.skip(i + 1)));
                assert(bytes@ + spec_history_bytes(h.skip(i + 1)) =~= pre + spec_history_bytes(
                    tail,
                ));
            }
            i = i + 1;
        }
        proof {
            assert(h.skip(h.len() as int) =~= Seq::<RoundEntryModel>::empty());
            assert(bytes@ =~= spec_rm_bytes(self@));
        }
        bytes
    }

    /// Deserializes a round manager. Corrupt bytes — short input, an invalid
    /// result byte, truncated round data, trailing bytes, or counters that no
    /// well-formed manager has — are rejected.
    pub fn from_bytes(bytes: &[u8]) -> (r: Result<RoundManager, RoundManagerError>)
        ensures
            match spec_parse_rm(bytes@) {
                Some(v) => r matches Ok(m) && m@ == v,
                None => r == Err::<RoundManager, RoundManagerError>(RoundManagerError::InvalidData),
            },
    {
        if bytes.len() < 8 {
            return Err(RoundManagerError::InvalidData);
        }
        let total_rounds = bytes[0];
        let rounds_played = bytes[1];
        let player1_score = bytes[2];
        let player2_score = bytes[3];
        let rounds_to_win = bytes[4];
        let consecutive_draws = bytes[5];
        let max_consecutive_draws = bytes[6];
        let count = bytes[7];
        let mut entries: Vec<RoundResult> = Vec::new();
        let mut pos: usize = 8;
        let mut k: u8 = 0;
        while k < count
            invariant
                8 <= pos <= bytes.len(),
                k <= count,
                count == bytes@[7],
                spec_parse_entries(bytes@.skip(8), count as nat) == spec_prepend_entries(
                    entries@.map_values(|r: RoundResult| r@),
                    spec_parse_entries(bytes@.skip(pos as int), (count - k) as nat),
                ),
            decreases count - k,
        {
            let ghost tail = bytes@.skip(pos as int);
            let ghost rem = (count - k) as nat;
            if bytes.len() - pos < 11 {
                proof {
                    assert(spec_parse_entries(tail, rem) is None);
                    assert(spec_parse_entries(bytes@.skip(8), count as nat) is None);
                    assert(spec_parse_rm(bytes@) is None);
                }
                return Err(RoundManagerError::InvalidData);
            }
            let round_number = bytes[pos];
            let result_byte = bytes[pos + 1];
            proof {
                assert(tail[0] == bytes@[pos as int]);
                assert(tail[1] == bytes@[pos + 1]);
                assert(tail[10] == bytes@[pos + 10]);
            }
            if result_byte > 2 {
                proof {
                    assert(spec_parse_entries(tail, rem) is None);
                    assert(spec_parse_entries(bytes@.skip(8), count as nat) is None);
                    assert(spec_parse_rm(bytes@) is None);
                }
                return Err(RoundManagerError::InvalidData);
            }
            let result = match GameResult::from_u8(result_byte) {
                Ok(x) => x,
                Err(_) => {
                    return Err(RoundManagerError::InvalidData);
                },
            };
            let ts_u = vstd::bytes::u64_from_le_bytes(&bytes[pos + 2..pos + 10]);
            let dlen = bytes[pos + 10] as usize;
            if bytes.len() - pos - 11 < dlen {
                proof {
                    assert(tail.len() < 11 + tail[10]);
                    assert(spec_parse_entries(tail, rem) is None);
                }
                return Err(RoundManagerError::InvalidData);
            }
            let round_data = vstd::slice::slice_to_vec(&bytes[pos + 11..pos + 11 + dlen]);
            let entry = RoundResult {
                round_number,
                result,
                timestamp: #[verifier::truncate] (ts_u as i64),
                round_data,
            };
            proof {
                assert(tail.subrange(2, 10) =~= bytes@.subrange(pos + 2, pos + 10));
                assert(tail.subrange(11, 11 + dlen as int) =~= bytes@.subrange(
                    pos + 11,
                    pos + 11 + dlen,
                ));
                assert(tail.skip(11 + dlen as int) =~= bytes@.skip(pos + 11 + dlen));
                assert(spec_parse_entries(tail, rem) == spec_prepend_entries(
                    seq![entry@],
                    spec_parse_entries(bytes@.skip(pos + 11 + dlen), (rem - 1) as nat),
                ));
            }
            let ghost pre_entries = entries@.map_values(|r: RoundResult| r@);
            entries.push(entry);
            pos = pos + 11 + dlen;
            k = k + 1;
            proof {
                assert(entries@.map_values(|r: RoundResult| r@) =~= pre_entries.push(entry@));
                let inner = spec_parse_entries(bytes@.skip(pos as int), (count - k) as nat);
                match inner {
                    None => {},
                    Some((es, rest)) => {
                        assert(pre_entries + (seq![entry@] + es) =~= pre_entries.push(entry@) + es);
                    },
                }
            }
        }
        proof {
            let tail = bytes@.skip(pos as int);
            assert(spec_parse_entries(tail, 0) == Some((Seq::<RoundEntryModel>::empty(), tail)));
            assert(entries@.map_values(|r: RoundResult| r@) + Seq::<RoundEntryModel>::empty()
                =~= entries@.map_values(|r: RoundResult| r@));
        }
        if pos != bytes.len() {
            return Err(RoundManagerError::InvalidData);
        }
        proof {
            assert(bytes@.skip(pos as int).len() == 0);
        }
        if !(total_rounds >= 1 && max_consecutive_draws >= 1 && rounds_to_win == total_rounds / 2
            + 1 && player1_score <= rounds_to_win && player2_score <= rounds_to_win
            && consecutive_draws <= max_consecutive_draws && rounds_played <= total_rounds) {
            return Err(RoundManagerError::InvalidData);
        }
        let m = RoundManager {
            total_rounds,
            rounds_played,
            player1_score,
            player2_score,
            round_history: entries,
            rounds_to_win,
            consecutive_draws,
            max_consecutive_draws,
        };
        proof {
            let v = spec_parse_rm(bytes@).unwrap();
            assert(m@ =~= v);
        }
        Ok(m)
    }
}

/// Every successfully parsed history has exactly the requested number of
/// rounds, each with at most 255 data bytes and a judged result.
proof fn lemma_parse_entries_props(bytes: Seq<u8>, count: nat)
    ensures
        match spec_parse_entries(bytes, count) {
            Some((entries, rest)) => entries.len() == count && (forall|i: int|
                0 <= i < entries.len() ==> (#[trigger] entries[i]).data.len() <= 255
                    && entries[i].result != GameResult::Cancelled),
            None => true,
        },
    decreases count,
{
    if count == 0 {
    } else if bytes.len() < 11 {
    } else if bytes[1] > 2 {
    } else {
        let dlen = bytes[10] as int;
        if bytes.len() < 11 + dlen {
        } else {
            lemma_parse_entries_props(bytes.skip(11 + dlen), (count - 1) as nat);
        }
    }
}

/// Whatever `spec_parse_rm` accepts is well-formed and serializable.
pub proof fn lemma_parse_rm_props(bytes: Seq<u8>)
    ensures
        match spec_parse_rm(bytes) {
            Some(v) => rm_wf(v) && rm_serializable(v),
            None => true,
        },
{
    if bytes.len() >= 8 {
        lemma_parse_entries_props(bytes.skip(8), bytes[7] as nat);
    }
}

/// Parsing the rounds serialized in front of any suffix gives the rounds
/// back, with the suffix untouched.
proof fn lemma_parse_entries_serialized(h: Seq<RoundEntryModel>, suffix: Seq<u8>)
    requires
        forall|i: int|
            0 <= i < h.len() ==> (#[trigger] h[i]).data.len() <= 255 && h[i].result
                != GameResult::Cancelled,
    ensures
        spec_parse_entries(spec_history_bytes(h) + suffix, h.len() as nat) == Some((h, suffix)),
    decreases h.len(),
{
    if h.len() == 0 {
        assert(spec_history_bytes(h) + suffix =~= suffix);
    } else {
        let e = h.first();
        let rest = h.drop_first();
        let bytes = spec_history_bytes(h) + suffix;
        let eb = spec_entry_bytes(e);
        vstd::bytes::lemma_auto_spec_u64_to_from_le_bytes();
        assert(vstd::bytes::spec_u64_to_le_bytes(e.timestamp as u64).len() == 8);
        assert(eb.len() == 11 + e.data.len());
        assert(bytes =~= eb + (spec_history_bytes(rest) + suffix));
        assert(bytes[0] == e.round_number);
        assert(bytes[1] == spec_result_byte(e.result));
        assert(bytes[1] <= 2);
        assert(bytes[10] == e.data.len() as u8);
        assert(bytes[10] as int == e.data.len());
        assert(bytes.len() >= 11 + e.data.len());
        assert(bytes.subrange(2, 10) =~= vstd::bytes::spec_u64_to_le_bytes(e.timestamp as u64));
        assert(vstd::bytes::spec_u64_from_le_bytes(bytes.subrange(2, 10)) == e.timestamp as u64);
        let t = e.timestamp;
        assert(((t as u64) as i64) == t) by (bit_vector);
        assert(bytes.subrange(11, 11 + e.data.len() as int) =~= e.data);
        assert(bytes.skip(11 + e.data.len() as int) =~= spec_history_bytes(rest) + suffix);
        lemma_parse_entries_serialized(rest, suffix);
        assert(spec_result_from_byte(spec_result_byte(e.result)) == e.result);
        assert(seq![e] + rest =~= h);
    }
}

/// Serialization round trip: parsing the serialization of any well-formed,
/// serializable round manager gives that manager back.
pub proof fn lemma_rm_bytes_round_trip(m: RoundManagerModel)
    requires
        rm_wf(m),
        rm_serializable(m),
    ensures
        spec_parse_rm(spec_rm_bytes(m)) == Some(m),
{
    let bytes = spec_rm_bytes(m);
    assert(bytes.len() >= 8);
    assert(bytes[7] == m.history.len() as u8);
    assert(bytes[7] as nat == m.history.len());
    assert(bytes.skip(8) =~= spec_history_bytes(m.history) + Seq::<u8>::empty());
    lemma_parse_entries_serialized(m.history, Seq::empty());
    match spec_parse_rm(bytes) {
        Some(v) => {
            assert(v =~= m);
        },
        None => {
            assert(false);
        },
    }
}

/// Prefixes already-parsed rounds onto the result of parsing the rest.
spec fn spec_prepend_entries(
    prefix: Seq<RoundEntryModel>,
    r: Option<(Seq<RoundEntryModel>, Seq<u8>)>,
) -> Option<(Seq<RoundEntryModel>, Seq<u8>)> {
    match r {
        None => None,
        Some((entries, rest)) => Some((prefix + entries, rest)),
    }
}

} // verus!
