//! Multi-round Rock-Paper-Scissors over a universal match: each played round
//! is judged, fed to the round manager, and the manager's snapshot is
//! serialized back into the match record. A drawn round is replayed; too
//! many consecutive draws force a resolution. Every operation either
//! completes or leaves the match unchanged.

use vstd::prelude::*;
use crate::engine::{UniversalMatch, MatchStatus, UniversalGameError, MAX_ROUND_STATE_SIZE};
use crate::rounds::{
    RoundManager, RoundManagerModel, RoundOutcome, GameResult, MatchProgress, spec_new_rm,
    spec_step, spec_step_outcome, spec_parse_rm, spec_rm_bytes, rm_wf, rm_in_progress,
    spec_forced_resolution, lemma_parse_rm_props,
};
use crate::rps::{RPSChoice, spec_round_result, spec_choice_to_u8, spec_choice_from_byte,
    judge_round};

verus! {

/// The default cap on consecutive draws before a forced resolution.
pub const DEFAULT_MAX_DRAWS: u8 = 3;

/// A best-of-N Rock-Paper-Scissors game.
pub struct RPSMultiRound {
    pub best_of: u8,
    pub max_draws: u8,
}

impl RPSMultiRound {
    /// A playable configuration: at least one round and a positive draw cap.
    pub open spec fn wf(self) -> bool {
        &&& self.best_of >= 1
        &&& self.max_draws >= 1
    }

    /// A best-of-`best_of` game with the default draw cap.
    pub fn new(best_of: u8) -> (r: RPSMultiRound)
        requires
            best_of >= 1,
        ensures
            r.best_of == best_of,
            r.max_draws == DEFAULT_MAX_DRAWS,
            r.wf(),
    {
        RPSMultiRound { best_of, max_draws: DEFAULT_MAX_DRAWS }
    }

    /// The round manager a match's `round_state` holds: a fresh manager
    /// while the snapshot is empty, otherwise its parse.
    pub open spec fn spec_stored_rm(self, m: UniversalMatch) -> Option<RoundManagerModel> {
        if m.round_state@.len() == 0 {
            Some(spec_new_rm(self.best_of, self.max_draws))
        } else {
            spec_parse_rm(m.round_state@)
        }
    }

    /// Processes one played round: judges the choices, records the result in
    /// the round manager, writes the manager's snapshot back, and on a match
    /// win or forced resolution records the winner and completes the match.
    /// A corrupt snapshot, a manager that is no longer in progress, or a
    /// snapshot that would outgrow its buffer is rejected with the match
    /// unchanged.
    pub fn process_round(
        &self,
        match_data: &mut UniversalMatch,
        player1_choice: RPSChoice,
        player2_choice: RPSChoice,
        now: i64,
    ) -> (r: Result<RoundOutcome, UniversalGameError>)
        requires
            old(match_data).wf(),
            self.wf(),
        ensures
            final(match_data).wf(),
            r matches Err(e) ==> *final(match_data) == *old(match_data) && e
                == UniversalGameError::InvalidGameState,
            ({
                let gr = spec_round_result(player1_choice, player2_choice);
                let data = seq![
                    spec_choice_to_u8(player1_choice),
                    spec_choice_to_u8(player2_choice),
                ];
                match self.spec_stored_rm(*old(match_data)) {
                    None => r is Err,
                    Some(rm0) => {
                        let stepped = spec_step(rm0, gr, now, data);
                        if rm_in_progress(rm0) && rm0.history.len() < 255 && spec_rm_bytes(
                            stepped,
                        ).len() <= MAX_ROUND_STATE_SIZE {
                            (r matches Ok(out) && out == spec_step_outcome(rm0, gr)
                                && final(match_data).round_state@ == spec_rm_bytes(stepped)
                                && *final(match_data)
                                == (UniversalMatch {
                                round_state: final(match_data).round_state,
                                winner: final(match_data).winner,
                                status: final(match_data).status,
                                ..*old(match_data)
                            }) && (match out {
                                RoundOutcome::MatchWon(res) => final(match_data).status
                                    == MatchStatus::Completed && final(match_data).winner == (
                                match res {
                                    GameResult::Player1Wins => Some(old(match_data).creator),
                                    GameResult::Player2Wins => old(match_data).opponent,
                                    _ => old(match_data).winner,
                                }),
                                RoundOutcome::ForcedResolution => final(match_data).status
                                    == MatchStatus::Completed && final(match_data).winner == (
                                match spec_forced_resolution(stepped) {
                                    GameResult::Player1Wins => Some(old(match_data).creator),
                                    GameResult::Player2Wins => old(match_data).opponent,
                                    _ => old(match_data).winner,
                                }),
                                _ => final(match_data).status == old(match_data).status
                                    && final(match_data).winner == old(match_data).winner,
                            }))
                        } else {
                            r is Err
                        }
                    },
                }
            }),
    {
        let ghost pre = *match_data;
        let mut rm: RoundManager = if match_data.round_state.len() == 0 {
            RoundManager::new(self.best_of, self.max_draws)
        } else {
            match RoundManager::from_bytes(match_data.round_state.as_slice()) {
                Ok(m) => m,
                Err(_) => {
                    return Err(UniversalGameError::InvalidGameState);
                },
            }
        };
        proof {
            lemma_parse_rm_props(pre.round_state@);
            assert(rm_wf(rm@));
        }
        if !(rm.player1_score < rm.rounds_to_win && rm.player2_score < rm.rounds_to_win
            && rm.rounds_played < rm.total_rounds && rm.consecutive_draws
            < rm.max_consecutive_draws) {
            return Err(UniversalGameError::InvalidGameState);
        }
        if rm.round_history.len() >= 255 {
            return Err(UniversalGameError::InvalidGameState);
        }
        let round_result = judge_round(player1_choice, player2_choice);
        let mut round_data: Vec<u8> = Vec::new();
        round_data.push(player1_choice.to_u8());
        round_data.push(player2_choice.to_u8());
        proof {
            assert(round_data@ =~= seq![
                spec_choice_to_u8(player1_choice),
                spec_choice_to_u8(player2_choice),
            ]);
        }
        let outcome = rm.process_round_result(round_result, now, round_data);
        let new_state = rm.to_bytes();
        if new_state.len() > MAX_ROUND_STATE_SIZE {
            return Err(UniversalGameError::InvalidGameState);
        }
        match_data.round_state = new_state;
        match outcome {
            RoundOutcome::MatchWon(res) => {
                match res {
                    GameResult::Player1Wins => {
                        match_data.winner = Some(match_data.creator);
                    },
                    GameResult::Player2Wins => {
                        match_data.winner = match_data.opponent;
                    },
                    _ => {},
                }
                match_data.status = MatchStatus::Completed;
            },
            RoundOutcome::ForcedResolution => {
                let forced = rm.forced_resolution();
                match forced {
                    GameResult::Player1Wins => {
                        match_data.winner = Some(match_data.creator);
                    },
                    GameResult::Player2Wins => {
                        match_data.winner = match_data.opponent;
                    },
                    _ => {},
                }
                match_data.status = MatchStatus::Completed;
            },
            _ => {},
        }
        Ok(outcome)
    }

    /// The progress snapshot of a multi-round match: rejected while no round
    /// was played yet or if the stored snapshot is corrupt.
    pub fn get_match_progress(match_data: &UniversalMatch) -> (r: Result<
        MatchProgress,
        UniversalGameError,
    >)
        ensures
            match_data.round_state@.len() == 0 ==> r == Err::<MatchProgress, UniversalGameError>(
                UniversalGameError::InvalidGameState,
            ),
            match_data.round_state@.len() > 0 ==> (match spec_parse_rm(match_data.round_state@) {
                None => r == Err::<MatchProgress, UniversalGameError>(
                    UniversalGameError::InvalidGameState,
                ),
                Some(v) => (r matches Ok(p) && p.rounds_played == v.rounds_played && p.total_rounds
                    == v.total_rounds && p.player1_score == v.player1_score && p.player2_score
                    == v.player2_score && p.rounds_remaining == vstd::math::min(
                    v.rounds_to_win - v.player1_score,
                    v.rounds_to_win - v.player2_score,
                ) && p.is_match_point == (v.player1_score == v.rounds_to_win - 1
                    || v.player2_score == v.rounds_to_win - 1) && p.leader == (
                if v.player1_score > v.player2_score {
                    Some(1u8)
                } else if v.player2_score > v.player1_score {
                    Some(2u8)
                } else {
                    None::<u8>
                })),
            }),
    {
        if match_data.round_state.len() == 0 {
            return Err(UniversalGameError::InvalidGameState);
        }
        let rm = match RoundManager::from_bytes(match_data.round_state.as_slice()) {
            Ok(m) => m,
            Err(_) => {
                return Err(UniversalGameError::InvalidGameState);
            },
        };
        proof {
            lemma_parse_rm_props(match_data.round_state@);
        }
        Ok(rm.get_match_status())
    }
}

/// The game-state buffer padded to the four staging bytes: the two parties'
/// choice bytes and their played markers.
pub open spec fn spec_padded4(gs: Seq<u8>) -> Seq<u8> {
    if gs.len() >= 4 {
        gs
    } else {
        gs + Seq::new((4 - gs.len()) as nat, |i: int| 0u8)
    }
}

/// The staging bytes after one party plays: their choice byte and played
/// marker are set.
pub open spec fn spec_staged(gs: Seq<u8>, is_player1: bool, choice: u8) -> Seq<u8> {
    let p = spec_padded4(gs);
    if is_player1 {
        p.update(0, choice).update(2, 1u8)
    } else {
        p.update(1, choice).update(3, 1u8)
    }
}

/// Copies a byte vector.
fn clone_bytes(src: &Vec<u8>) -> (r: Vec<u8>)
    ensures
        r@ == src@,
{
    let mut out: Vec<u8> = Vec::new();
    let mut i: usize = 0;
    while i < src.len()
        invariant
            i <= src.len(),
            out@ == src@.subrange(0, i as int),
        decreases src.len() - i,
    {
        out.push(src[i]);
        proof {
            assert(src@.subrange(0, i as int).push(src@[i as int]) =~= src@.subrange(0, i + 1));
        }
        i = i + 1;
    }
    proof {
        assert(src@.subrange(0, src@.len() as int) =~= src@);
    }
    out
}

/// One party plays their round choice. The choice is staged in the game
/// state; once both parties have played, the round is judged and fed to the
/// round manager, and the staging markers are cleared for the next round.
/// The judged outcome is returned once both have played. Either the whole
/// operation applies or the match is unchanged.
pub fn play_round(
    match_data: &mut UniversalMatch,
    player: u64,
    player_choice: u8,
    now: i64,
) -> (r: Result<Option<RoundOutcome>, UniversalGameError>)
    requires
        old(match_data).wf(),
    ensures
        final(match_data).wf(),
        r matches Err(e) ==> *final(match_data) == *old(match_data),
        ({
            let is_player1 = player == old(match_data).creator;
            let staged = spec_staged(old(match_data).game_state@, is_player1, player_choice);
            if player != old(match_data).creator && old(match_data).opponent != Some(player) {
                r == Err::<Option<RoundOutcome>, UniversalGameError>(UniversalGameError::Unauthorized)
            } else if player_choice > 2 {
                r == Err::<Option<RoundOutcome>, UniversalGameError>(
                    UniversalGameError::InvalidGameState,
                )
            } else if !(staged[2] == 1 && staged[3] == 1) {
                (r matches Ok(o) && o is None && *final(match_data) == (UniversalMatch {
                    game_state: final(match_data).game_state,
                    ..*old(match_data)
                }) && final(match_data).game_state@ == staged)
            } else if staged[0] > 2 || staged[1] > 2 || old(match_data).game_config.rounds == 0 {
                r == Err::<Option<RoundOutcome>, UniversalGameError>(
                    UniversalGameError::InvalidGameState,
                )
            } else {
                let c1 = spec_choice_from_byte(staged[0]);
                let c2 = spec_choice_from_byte(staged[1]);
                let game = (RPSMultiRound {
                    best_of: old(match_data).game_config.rounds,
                    max_draws: DEFAULT_MAX_DRAWS,
                });
                let gr = spec_round_result(c1, c2);
                match game.spec_stored_rm(*old(match_data)) {
                    None => r == Err::<Option<RoundOutcome>, UniversalGameError>(
                        UniversalGameError::InvalidGameState,
                    ),
                    Some(rm0) => {
                        let stepped = spec_step(rm0, gr, now, seq![staged[0], staged[1]]);
                        if rm_in_progress(rm0) && rm0.history.len() < 255 && spec_rm_bytes(
                            stepped,
                        ).len() <= MAX_ROUND_STATE_SIZE {
                            (r matches Ok(o) && o == Some(spec_step_outcome(rm0, gr))
                                && final(match_data).game_state@ == staged.update(2, 0u8).update(
                                3,
                                0u8,
                            ) && final(match_data).round_state@ == spec_rm_bytes(stepped)
                                && *final(match_data) == (UniversalMatch {
                                game_state: final(match_data).game_state,
                                round_state: final(match_data).round_state,
                                winner: final(match_data).winner,
                                status: final(match_data).status,
                                ..*old(match_data)
                            }) && (match spec_step_outcome(rm0, gr) {
                                RoundOutcome::MatchWon(res) => final(match_data).status
                                    == MatchStatus::Completed && final(match_data).winner == (
                                match res {
                                    GameResult::Player1Wins => Some(old(match_data).creator),
                                    GameResult::Player2Wins => old(match_data).opponent,
                                    _ => old(match_data).winner,
                                }),
                                RoundOutcome::ForcedResolution => final(match_data).status
                                    == MatchStatus::Completed && final(match_data).winner == (
                                match spec_forced_resolution(stepped) {
                                    GameResult::Player1Wins => Some(old(match_data).creator),
                                    GameResult::Player2Wins => old(match_data).opponent,
                                    _ => old(match_data).winner,
                                }),
                                _ => final(match_data).status == old(match_data).status
                                    && final(match_data).winner == old(match_data).winner,
                            }))
                        } else {
                            r == Err::<Option<RoundOutcome>, UniversalGameError>(
                                UniversalGameError::InvalidGameState,
                            )
                        }
                    },
                }
            }
        }),
{
    let is_player1 = player == match_data.creator;
    let is_player2 = match match_data.opponent {
        Some(o) => o == player,
        None => false,
    };
    if !is_player1 && !is_player2 {
        return Err(UniversalGameError::Unauthorized);
    }
    if player_choice > 2 {
        return Err(UniversalGameError::InvalidGameState);
    }
    let mut gs = clone_bytes(&match_data.game_state);
    while gs.len() < 4
        invariant
            gs@.len() >= match_data.game_state@.len() ==> gs@ == spec_padded4(
                match_data.game_state@,
            ).subrange(0, gs@.len() as int),
            gs@.len() >= match_data.game_state@.len(),
            gs@.len() <= 4 || gs@ == match_data.game_state@,
        decreases 4 - gs.len(),
    {
        gs.push(0);
        proof {
            assert(spec_padded4(match_data.game_state@).subrange(0, gs@.len() - 1).push(0u8)
                =~= spec_padded4(match_data.game_state@).subrange(0, gs@.len() as int));
        }
    }
    proof {
        assert(gs@ =~= spec_padded4(match_data.game_state@));
    }
    if is_player1 {
        gs.set(0, player_choice);
        gs.set(2, 1);
    } else {
        gs.set(1, player_choice);
        gs.set(3, 1);
    }
    proof {
        assert(gs@ == spec_staged(match_data.game_state@, is_player1, player_choice));
    }
    let both_played = gs[2] == 1 && gs[3] == 1;
    if both_played {
        let b0 = gs[0];
        let b1 = gs[1];
        if b0 > 2 || b1 > 2 {
            return Err(UniversalGameError::InvalidGameState);
        }
        let c1 = match crate::rps::RPSChoice::from_u8(b0) {
            Ok(c) => c,
            Err(_) => {
                return Err(UniversalGameError::InvalidGameState);
            },
        };
        let c2 = match crate::rps::RPSChoice::from_u8(b1) {
            Ok(c) => c,
            Err(_) => {
                return Err(UniversalGameError::InvalidGameState);
            },
        };
        if match_data.game_config.rounds == 0 {
            return Err(UniversalGameError::InvalidGameState);
        }
        let game = RPSMultiRound::new(match_data.game_config.rounds);
        let outcome = match game.process_round(match_data, c1, c2, now) {
            Ok(o) => o,
            Err(e) => {
                return Err(e);
            },
        };
        gs.set(2, 0);
        gs.set(3, 0);
        match_data.game_state = gs;
        Ok(Some(outcome))
    } else {
        match_data.game_state = gs;
        Ok(None)
    }
}

} // verus!
