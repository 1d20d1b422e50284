use pvp_engine::rounds::{GameResult, RoundManager, RoundOutcome};

#[test]
fn best_of_three_aggregation() {
    let mut rm = RoundManager::new(3, 3);
    assert_eq!(rm.rounds_to_win, 2);
    let out1 = rm.process_round_result(GameResult::Player1Wins, 100, vec![0, 2]);
    assert_eq!(out1, RoundOutcome::ContinueMatch);
    let out2 = rm.process_round_result(GameResult::Player2Wins, 200, vec![2, 0]);
    assert_eq!(out2, RoundOutcome::ContinueMatch);
    let out3 = rm.process_round_result(GameResult::Player1Wins, 300, vec![1, 0]);
    assert_eq!(out3, RoundOutcome::MatchWon(GameResult::Player1Wins));
    assert_eq!(rm.rounds_played, 3);
    assert_eq!(rm.player1_score, 2);
    assert_eq!(rm.player2_score, 1);
}

#[test]
fn draw_requires_replay_keeps_rounds_played() {
    let mut rm = RoundManager::new(3, 3);
    let out = rm.process_round_result(GameResult::Draw, 100, vec![0, 0]);
    assert_eq!(out, RoundOutcome::DrawRequiresReplay);
    assert_eq!(rm.consecutive_draws, 1);
    assert_eq!(rm.rounds_played, 0, "a drawn round is replayed, not counted");
    assert_eq!(rm.round_history.len(), 1);
}

#[test]
fn three_draws_force_resolution() {
    let mut rm = RoundManager::new(3, 3);
    assert_eq!(
        rm.process_round_result(GameResult::Draw, 100, vec![0, 0]),
        RoundOutcome::DrawRequiresReplay
    );
    assert_eq!(
        rm.process_round_result(GameResult::Draw, 100, vec![1, 1]),
        RoundOutcome::DrawRequiresReplay
    );
    assert_eq!(
        rm.process_round_result(GameResult::Draw, 100, vec![2, 2]),
        RoundOutcome::ForcedResolution
    );
    assert_eq!(rm.player1_score, 0);
    assert_eq!(rm.player2_score, 0);
    // Identical even timestamps: the parity tie-break is deterministic.
    assert_eq!(rm.forced_resolution(), GameResult::Player1Wins);
}

#[test]
fn forced_resolution_prefers_score() {
    let mut rm = RoundManager::new(5, 3);
    rm.process_round_result(GameResult::Player1Wins, 1, vec![]);
    assert_eq!(rm.forced_resolution(), GameResult::Player1Wins);
    let mut rm2 = RoundManager::new(5, 3);
    rm2.process_round_result(GameResult::Player2Wins, 1, vec![]);
    assert_eq!(rm2.forced_resolution(), GameResult::Player2Wins);
}

#[test]
fn forced_resolution_parity_on_tie() {
    // One recorded draw with an odd timestamp: odd sum, second party wins.
    let mut rm = RoundManager::new(3, 3);
    rm.process_round_result(GameResult::Draw, 101, vec![]);
    assert_eq!(rm.forced_resolution(), GameResult::Player2Wins);
    // Two odd timestamps: even sum, first party wins.
    let mut rm2 = RoundManager::new(3, 3);
    rm2.process_round_result(GameResult::Draw, 101, vec![]);
    rm2.process_round_result(GameResult::Draw, 103, vec![]);
    assert_eq!(rm2.forced_resolution(), GameResult::Player1Wins);
}

#[test]
fn full_rounds_without_majority_resolve_by_score() {
    // Best of 2: one win each fills the rounds with a perfect tie.
    let mut rm = RoundManager::new(2, 3);
    assert_eq!(rm.rounds_to_win, 2);
    assert_eq!(
        rm.process_round_result(GameResult::Player1Wins, 10, vec![]),
        RoundOutcome::ContinueMatch
    );
    assert_eq!(
        rm.process_round_result(GameResult::Player2Wins, 20, vec![]),
        RoundOutcome::ForcedResolution
    );
}

#[test]
fn serialization_round_trip() {
    let mut rm = RoundManager::new(3, 3);
    rm.process_round_result(GameResult::Player1Wins, -50, vec![0, 2]);
    rm.process_round_result(GameResult::Draw, 7, vec![1, 1]);
    let bytes = rm.to_bytes();
    let back = RoundManager::from_bytes(&bytes).expect("round trip parse");
    assert_eq!(back.total_rounds, rm.total_rounds);
    assert_eq!(back.rounds_played, rm.rounds_played);
    assert_eq!(back.player1_score, rm.player1_score);
    assert_eq!(back.player2_score, rm.player2_score);
    assert_eq!(back.rounds_to_win, rm.rounds_to_win);
    assert_eq!(back.consecutive_draws, rm.consecutive_draws);
    assert_eq!(back.max_consecutive_draws, rm.max_consecutive_draws);
    assert_eq!(back.round_history.len(), rm.round_history.len());
    for i in 0..rm.round_history.len() {
        assert_eq!(back.round_history[i].round_number, rm.round_history[i].round_number);
        assert_eq!(back.round_history[i].result, rm.round_history[i].result);
        assert_eq!(back.round_history[i].timestamp, rm.round_history[i].timestamp);
        assert_eq!(back.round_history[i].round_data, rm.round_history[i].round_data);
    }
}

#[test]
fn from_bytes_rejects_corrupt_input() {
    assert!(RoundManager::from_bytes(&[1, 0, 0]).is_err(), "short input");
    // Valid header claiming one round, but no round bytes follow.
    assert!(RoundManager::from_bytes(&[3, 0, 0, 0, 2, 0, 3, 1]).is_err(), "truncated round");
    // A round with an invalid result byte.
    let mut bytes = vec![3, 1, 1, 0, 2, 0, 3, 1];
    bytes.extend_from_slice(&[1, 9]);
    bytes.extend_from_slice(&100i64.to_le_bytes());
    bytes.push(0);
    assert!(RoundManager::from_bytes(&bytes).is_err(), "bad result byte");
    // Trailing garbage after a valid serialization.
    let rm = RoundManager::new(3, 3);
    let mut ok_bytes = rm.to_bytes();
    assert!(RoundManager::from_bytes(&ok_bytes).is_ok());
    ok_bytes.push(0);
    assert!(RoundManager::from_bytes(&ok_bytes).is_err(), "trailing byte");
    // Counters no well-formed manager has: threshold not a majority.
    assert!(RoundManager::from_bytes(&[3, 0, 0, 0, 1, 0, 3, 0]).is_err(), "bad threshold");
}

#[test]
fn game_result_byte_codec() {
    assert_eq!(GameResult::Player1Wins.to_u8(), 1);
    assert_eq!(GameResult::Player2Wins.to_u8(), 2);
    assert_eq!(GameResult::Draw.to_u8(), 0);
    assert_eq!(GameResult::Cancelled.to_u8(), 3);
    assert_eq!(GameResult::from_u8(0).unwrap(), GameResult::Draw);
    assert_eq!(GameResult::from_u8(1).unwrap(), GameResult::Player1Wins);
    assert_eq!(GameResult::from_u8(2).unwrap(), GameResult::Player2Wins);
    assert!(GameResult::from_u8(3).is_err());
}

#[test]
fn match_status_snapshot() {
    let mut rm = RoundManager::new(5, 3);
    rm.process_round_result(GameResult::Player1Wins, 1, vec![]);
    rm.process_round_result(GameResult::Player1Wins, 2, vec![]);
    let p = rm.get_match_status();
    assert_eq!(p.rounds_played, 2);
    assert_eq!(p.total_rounds, 5);
    assert_eq!(p.player1_score, 2);
    assert_eq!(p.player2_score, 0);
    assert_eq!(p.rounds_remaining, 1);
    assert!(p.is_match_point);
    assert_eq!(p.leader, Some(1));
}
