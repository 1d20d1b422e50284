use pvp_engine::engine::{create_universal_match, GameConfig, GameType, UniversalMatch};
use pvp_engine::payout::PayoutReason;
use pvp_engine::rounds::GameResult;
use pvp_engine::rps::RPSChoice;
use pvp_engine::rps::RPSGameState;
use pvp_engine::rps_v2::{
    GamePhase, MoveResult, RockPaperScissorsV2, RPSGameStateV2, TimeoutResult,
};

const CREATOR: u64 = 1;
const OPPONENT: u64 = 2;

fn config(rounds: u8) -> GameConfig {
    GameConfig { max_players: 2, min_bet: 0, max_bet: 1000, rounds, custom_params: [0; 16] }
}

fn fresh_match(rounds: u8) -> UniversalMatch {
    let game = RockPaperScissorsV2::new();
    let mut m = create_universal_match(9, GameType::RockPaperScissors, CREATOR, 10, config(
        rounds,
    ), 100)
    .unwrap();
    m.join_match(OPPONENT, 150).unwrap();
    game.initialize_game_state(&mut m, &config(rounds)).unwrap();
    m
}

fn reveal_payload(choice: RPSChoice, salt: &[u8; 32], nonce: u64) -> Vec<u8> {
    let mut data = vec![choice.to_u8()];
    data.extend_from_slice(salt);
    data.extend_from_slice(&nonce.to_le_bytes());
    data
}

#[test]
fn full_commit_reveal_round() {
    let game = RockPaperScissorsV2::new();
    let mut m = fresh_match(1);
    assert_eq!(game.get_current_phase(&m), GamePhase::Commit);
    assert!(game.can_make_move(CREATOR, &m));

    let salt1 = [7u8; 32];
    let salt2 = [9u8; 32];
    let c1 = game.create_commitment(RPSChoice::Rock, &salt1, CREATOR, 1);
    let c2 = game.create_commitment(RPSChoice::Scissors, &salt2, OPPONENT, 2);

    let r1 = game.process_move(CREATOR, &c1.to_vec(), &mut m).unwrap();
    assert_eq!(r1, MoveResult::WaitingForOpponent);
    assert!(!game.can_make_move(CREATOR, &m), "a committed party waits");

    let r2 = game.process_move(OPPONENT, &c2.to_vec(), &mut m).unwrap();
    assert_eq!(r2, MoveResult::PhaseChange(GamePhase::Reveal));
    assert_eq!(game.get_current_phase(&m), GamePhase::Reveal);

    let r3 = game
        .process_move(CREATOR, &reveal_payload(RPSChoice::Rock, &salt1, 1), &mut m)
        .unwrap();
    assert_eq!(r3, MoveResult::WaitingForOpponent);
    assert!(!game.is_game_over(&m));

    let r4 = game
        .process_move(OPPONENT, &reveal_payload(RPSChoice::Scissors, &salt2, 2), &mut m)
        .unwrap();
    assert_eq!(r4, MoveResult::GameOver(GameResult::Player1Wins));
    assert!(game.is_game_over(&m));
    assert_eq!(game.determine_winner(&m).unwrap(), GameResult::Player1Wins);

    let payouts = game.calculate_payouts(&m).unwrap();
    assert_eq!(payouts.len(), 1);
    assert_eq!(payouts[0].player, CREATOR);
    assert_eq!(payouts[0].amount, 20);
    assert_eq!(payouts[0].reason, PayoutReason::Winner);
}

#[test]
fn reveal_must_match_commitment() {
    let game = RockPaperScissorsV2::new();
    let mut m = fresh_match(1);
    let salt = [7u8; 32];
    let c1 = game.create_commitment(RPSChoice::Rock, &salt, CREATOR, 1);
    let c2 = game.create_commitment(RPSChoice::Paper, &salt, OPPONENT, 2);
    game.process_move(CREATOR, &c1.to_vec(), &mut m).unwrap();
    game.process_move(OPPONENT, &c2.to_vec(), &mut m).unwrap();
    // A reveal with a different choice than committed is rejected.
    assert!(game
        .process_move(CREATOR, &reveal_payload(RPSChoice::Paper, &salt, 1), &mut m)
        .is_err());
    // A reveal with the wrong nonce is rejected too: the commitment binds it.
    assert!(game
        .process_move(CREATOR, &reveal_payload(RPSChoice::Rock, &salt, 99), &mut m)
        .is_err());
    // The correct reveal still goes through afterwards.
    assert_eq!(
        game.process_move(CREATOR, &reveal_payload(RPSChoice::Rock, &salt, 1), &mut m)
            .unwrap(),
        MoveResult::WaitingForOpponent
    );
}

#[test]
fn multi_round_advances_to_next_commit() {
    let game = RockPaperScissorsV2::new();
    let mut m = fresh_match(3);
    let salt = [1u8; 32];
    let c1 = game.create_commitment(RPSChoice::Rock, &salt, CREATOR, 1);
    let c2 = game.create_commitment(RPSChoice::Scissors, &salt, OPPONENT, 2);
    game.process_move(CREATOR, &c1.to_vec(), &mut m).unwrap();
    game.process_move(OPPONENT, &c2.to_vec(), &mut m).unwrap();
    game.process_move(CREATOR, &reveal_payload(RPSChoice::Rock, &salt, 1), &mut m).unwrap();
    let out = game
        .process_move(OPPONENT, &reveal_payload(RPSChoice::Scissors, &salt, 2), &mut m)
        .unwrap();
    // Best of three: one win does not finish the match.
    assert_eq!(out, MoveResult::PhaseChange(GamePhase::Commit));
    assert!(!game.is_game_over(&m));
    assert_eq!(game.get_current_phase(&m), GamePhase::Commit);
}

#[test]
fn validate_config_and_moves() {
    let game = RockPaperScissorsV2::new();
    assert!(game.validate_config(&config(1)).is_ok());
    assert!(game.validate_config(&config(0)).is_err());
    assert!(game.validate_config(&config(11)).is_err());
    let bad_players =
        GameConfig { max_players: 3, min_bet: 0, max_bet: 10, rounds: 1, custom_params: [0; 16] };
    assert!(game.validate_config(&bad_players).is_err());

    let m = fresh_match(1);
    assert!(game.validate_move(CREATOR, &vec![0u8; 32], &m).is_ok());
    assert!(game.validate_move(CREATOR, &vec![0u8; 31], &m).is_err());
    assert!(game.validate_move(CREATOR, &vec![0u8; 33], &m).is_err());
}

#[test]
fn commit_phase_timeout_resolution() {
    let game = RockPaperScissorsV2::new();
    let mut m = fresh_match(1);
    // Neither committed: a no-fault refund.
    assert_eq!(game.handle_timeout(&m).unwrap(), TimeoutResult::RefundAll);
    // Only the creator committed: the opponent forfeits.
    let salt = [1u8; 32];
    let c1 = game.create_commitment(RPSChoice::Rock, &salt, CREATOR, 1);
    game.process_move(CREATOR, &c1.to_vec(), &mut m).unwrap();
    assert_eq!(game.handle_timeout(&m).unwrap(), TimeoutResult::ForfeitPlayer(OPPONENT));
    // Only the opponent committed: the creator forfeits.
    let mut m2 = fresh_match(1);
    let c2 = game.create_commitment(RPSChoice::Paper, &salt, OPPONENT, 2);
    game.process_move(OPPONENT, &c2.to_vec(), &mut m2).unwrap();
    assert_eq!(game.handle_timeout(&m2).unwrap(), TimeoutResult::ForfeitPlayer(CREATOR));
}

#[test]
fn state_codec_round_trip() {
    let state = RPSGameStateV2 {
        player1_commitment: Some([5u8; 32]),
        player2_commitment: None,
        player1_revealed: None,
        player2_revealed: None,
        phase: GamePhase::Commit,
        round: 2,
        max_rounds: 5,
        player1_wins: 1,
        player2_wins: 2,
    };
    let bytes = state.as_bytes();
    assert_eq!(bytes.len(), 75);
    let back = RPSGameStateV2::from_bytes(&bytes).unwrap();
    assert_eq!(back.player1_commitment, state.player1_commitment);
    assert_eq!(back.player2_commitment, state.player2_commitment);
    assert_eq!(back.player1_revealed, state.player1_revealed);
    assert_eq!(back.player2_revealed, state.player2_revealed);
    assert_eq!(back.phase, state.phase);
    assert_eq!(back.round, state.round);
    assert_eq!(back.max_rounds, state.max_rounds);
    assert_eq!(back.player1_wins, state.player1_wins);
    assert_eq!(back.player2_wins, state.player2_wins);
    assert!(back.is_valid());
}

#[test]
fn single_round_state_codec_round_trip() {
    let state = RPSGameState {
        player1_commitment: [3u8; 32],
        player2_commitment: [4u8; 32],
        player1_revealed: Some(RPSChoice::Paper),
        player2_revealed: None,
        reveal_deadline: -12345,
    };
    let bytes = state.to_bytes();
    assert_eq!(bytes.len(), 76);
    let back = RPSGameState::from_bytes(&bytes).unwrap();
    assert_eq!(back.player1_commitment, state.player1_commitment);
    assert_eq!(back.player2_commitment, state.player2_commitment);
    assert_eq!(back.player1_revealed, state.player1_revealed);
    assert_eq!(back.player2_revealed, state.player2_revealed);
    assert_eq!(back.reveal_deadline, state.reveal_deadline);
    assert!(RPSGameState::from_bytes(&bytes[..75]).is_err(), "short input");
    let mut bad = bytes.clone();
    bad[65] = 3;
    assert!(RPSGameState::from_bytes(&bad).is_err(), "bad choice byte");
}

#[test]
fn state_codec_rejects_corrupt_bytes() {
    let state = RPSGameStateV2 {
        player1_commitment: None,
        player2_commitment: None,
        player1_revealed: None,
        player2_revealed: None,
        phase: GamePhase::Commit,
        round: 1,
        max_rounds: 3,
        player1_wins: 0,
        player2_wins: 0,
    };
    let good = state.as_bytes();
    assert!(RPSGameStateV2::from_bytes(&good).is_ok());
    assert!(RPSGameStateV2::from_bytes(&good[..74]).is_err(), "short input");
    let mut bad_flag = good.clone();
    bad_flag[0] = 2;
    assert!(RPSGameStateV2::from_bytes(&bad_flag).is_err(), "bad flag");
    let mut bad_pad = good.clone();
    bad_pad[5] = 1;
    assert!(RPSGameStateV2::from_bytes(&bad_pad).is_err(), "nonzero padding");
    let mut bad_phase = good.clone();
    bad_phase[70] = 6;
    assert!(RPSGameStateV2::from_bytes(&bad_phase).is_err(), "bad phase");
    let mut bad_score = good.clone();
    bad_score[73] = 9;
    assert!(RPSGameStateV2::from_bytes(&bad_score).is_err(), "impossible score");
}
