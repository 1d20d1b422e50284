use pvp_engine::engine::{create_universal_match, GameConfig, GameType, MatchStatus,
    UniversalMatch, UniversalGameError};
use pvp_engine::multi_round::{play_round, RPSMultiRound};
use pvp_engine::registry::{initialize_registry, register_game, MAX_GAMES};
use pvp_engine::rounds::{GameResult, RoundOutcome};
use pvp_engine::rps::RPSChoice;

const CREATOR: u64 = 1;
const OPPONENT: u64 = 2;

fn running_match(rounds: u8) -> UniversalMatch {
    let cfg = GameConfig { max_players: 2, min_bet: 0, max_bet: 1000, rounds, custom_params: [0;
        16] };
    let mut m = create_universal_match(3, GameType::RockPaperScissors, CREATOR, 10, cfg, 100)
        .unwrap();
    m.join_match(OPPONENT, 150).unwrap();
    m
}

#[test]
fn best_of_three_match_flow() {
    let game = RPSMultiRound::new(3);
    let mut m = running_match(3);
    let out1 = game
        .process_round(&mut m, RPSChoice::Rock, RPSChoice::Scissors, 100)
        .unwrap();
    assert_eq!(out1, RoundOutcome::ContinueMatch);
    assert_eq!(m.status, MatchStatus::InProgress);
    let out2 = game
        .process_round(&mut m, RPSChoice::Rock, RPSChoice::Paper, 200)
        .unwrap();
    assert_eq!(out2, RoundOutcome::ContinueMatch);
    let out3 = game
        .process_round(&mut m, RPSChoice::Paper, RPSChoice::Rock, 300)
        .unwrap();
    assert_eq!(out3, RoundOutcome::MatchWon(GameResult::Player1Wins));
    assert_eq!(m.status, MatchStatus::Completed);
    assert_eq!(m.winner, Some(CREATOR));
    let progress = RPSMultiRound::get_match_progress(&m).unwrap();
    assert_eq!(progress.rounds_played, 3);
    assert_eq!(progress.player1_score, 2);
    assert_eq!(progress.player2_score, 1);
}

#[test]
fn draw_rounds_replay_then_force() {
    let game = RPSMultiRound::new(3);
    let mut m = running_match(3);
    assert_eq!(
        game.process_round(&mut m, RPSChoice::Rock, RPSChoice::Rock, 100).unwrap(),
        RoundOutcome::DrawRequiresReplay
    );
    let progress = RPSMultiRound::get_match_progress(&m).unwrap();
    assert_eq!(progress.rounds_played, 0, "a drawn round is not counted");
    assert_eq!(
        game.process_round(&mut m, RPSChoice::Paper, RPSChoice::Paper, 100).unwrap(),
        RoundOutcome::DrawRequiresReplay
    );
    assert_eq!(
        game.process_round(&mut m, RPSChoice::Scissors, RPSChoice::Scissors, 100).unwrap(),
        RoundOutcome::ForcedResolution
    );
    assert_eq!(m.status, MatchStatus::Completed);
    // Identical even timestamps: the parity tie-break picks the creator.
    assert_eq!(m.winner, Some(CREATOR));
}

#[test]
fn corrupt_round_state_rejected() {
    let game = RPSMultiRound::new(3);
    let mut m = running_match(3);
    m.round_state = vec![1, 2, 3];
    assert_eq!(
        game.process_round(&mut m, RPSChoice::Rock, RPSChoice::Paper, 100).unwrap_err(),
        UniversalGameError::InvalidGameState
    );
    assert_eq!(m.round_state, vec![1, 2, 3], "a rejected round changes nothing");
}

#[test]
fn play_round_stages_choices() {
    let mut m = running_match(3);
    let r1 = play_round(&mut m, CREATOR, 0, 100).unwrap();
    assert_eq!(r1, None, "one choice staged, waiting for the other party");
    assert_eq!(m.game_state[0], 0);
    assert_eq!(m.game_state[2], 1);
    let r2 = play_round(&mut m, OPPONENT, 2, 110).unwrap();
    assert_eq!(r2, Some(RoundOutcome::ContinueMatch));
    assert_eq!(m.game_state[2], 0, "markers reset for the next round");
    assert_eq!(m.game_state[3], 0);
    let progress = RPSMultiRound::get_match_progress(&m).unwrap();
    assert_eq!(progress.player1_score, 1);
}

#[test]
fn play_round_validations() {
    let mut m = running_match(3);
    assert_eq!(play_round(&mut m, 77, 0, 100).unwrap_err(), UniversalGameError::Unauthorized);
    assert_eq!(
        play_round(&mut m, CREATOR, 3, 100).unwrap_err(),
        UniversalGameError::InvalidGameState
    );
}

#[test]
fn registry_registration() {
    let mut reg = initialize_registry(5);
    assert!(!reg.is_paused());
    let id0 = register_game(&mut reg, GameType::RockPaperScissors, b"rps".to_vec(), 5, 100)
        .unwrap();
    let id1 = register_game(&mut reg, GameType::Dice, b"dice".to_vec(), 5, 110).unwrap();
    assert_eq!(id0, 0);
    assert_eq!(id1, 1);
    assert_eq!(reg.total_games, 2);
    assert!(reg.active_games[0].is_active());
    assert_eq!(reg.active_games[1].name, b"dice".to_vec());
    reg.set_paused(true);
    assert!(reg.is_paused());
}

#[test]
fn registry_full_rejected() {
    let mut reg = initialize_registry(5);
    for i in 0..MAX_GAMES {
        register_game(&mut reg, GameType::Custom(i as u16), Vec::new(), 5, 0).unwrap();
    }
    assert_eq!(
        register_game(&mut reg, GameType::Dice, Vec::new(), 5, 0).unwrap_err(),
        UniversalGameError::RegistryFull
    );
}
