use pvp_engine::engine::{
    create_universal_match, GameConfig, GameType, MatchStatus, StateEncoder, UniversalGameError,
    UniversalMatch,
};
use pvp_engine::payout::PayoutReason;
use pvp_engine::rounds::GameResult;

const CREATOR: u64 = 1;
const OPPONENT: u64 = 2;

fn config(min_bet: u64, max_bet: u64) -> GameConfig {
    GameConfig { max_players: 2, min_bet, max_bet, rounds: 1, custom_params: [0; 16] }
}

fn running_match(game_type: GameType, bet: u64) -> UniversalMatch {
    let mut m = create_universal_match(7, game_type, CREATOR, bet, config(0, u64::MAX / 2), 100)
        .unwrap();
    m.join_match(OPPONENT, 150).unwrap();
    m
}

#[test]
fn universal_create_validations() {
    assert_eq!(
        create_universal_match(7, GameType::RockPaperScissors, CREATOR, 5, config(10, 100), 0)
            .unwrap_err(),
        UniversalGameError::InsufficientBet
    );
    assert_eq!(
        create_universal_match(7, GameType::RockPaperScissors, CREATOR, 200, config(10, 100), 0)
            .unwrap_err(),
        UniversalGameError::BetTooLarge
    );
    assert_eq!(
        create_universal_match(
            7,
            GameType::RockPaperScissors,
            CREATOR,
            u64::MAX / 2 + 1,
            config(0, u64::MAX),
            0
        )
        .unwrap_err(),
        UniversalGameError::ArithmeticOverflow,
        "a stake whose pot would wrap is rejected"
    );
    let m = create_universal_match(7, GameType::Dice, CREATOR, 50, config(10, 100), 0).unwrap();
    assert_eq!(m.total_pot, 100);
    assert_eq!(m.status, MatchStatus::WaitingForOpponent);
}

#[test]
fn join_then_settle_rps_example() {
    // The canonical example: stake 10 per party, creator reveals Rock, the
    // opponent Scissors; the creator wins the 20-unit pot.
    let mut m = running_match(GameType::RockPaperScissors, 10);
    m.submit_move(CREATOR, &vec![0], 200).unwrap();
    m.submit_move(OPPONENT, &vec![2], 210).unwrap();
    let (result, payouts) = m.settle_match(250).unwrap();
    assert_eq!(result, GameResult::Player1Wins);
    assert_eq!(m.status, MatchStatus::Completed);
    assert_eq!(m.winner, Some(CREATOR));
    assert_eq!(payouts.len(), 1);
    assert_eq!(payouts[0].player, CREATOR);
    assert_eq!(payouts[0].amount, 20);
    assert_eq!(payouts[0].reason, PayoutReason::Winner);
}

#[test]
fn settle_draw_refunds_stakes() {
    let mut m = running_match(GameType::RockPaperScissors, 10);
    m.submit_move(CREATOR, &vec![1], 200).unwrap();
    m.submit_move(OPPONENT, &vec![1], 210).unwrap();
    let (result, payouts) = m.settle_match(250).unwrap();
    assert_eq!(result, GameResult::Draw);
    assert_eq!(m.winner, None);
    assert_eq!(payouts.len(), 2);
    assert_eq!(payouts[0].amount, 10);
    assert_eq!(payouts[1].amount, 10);
    let total: u64 = payouts.iter().map(|p| p.amount).sum();
    assert_eq!(total, m.total_pot);
}

#[test]
fn settle_twice_rejected() {
    let mut m = running_match(GameType::RockPaperScissors, 10);
    m.submit_move(CREATOR, &vec![0], 200).unwrap();
    m.submit_move(OPPONENT, &vec![2], 210).unwrap();
    assert!(m.settle_match(250).is_ok());
    assert_eq!(m.settle_match(260).unwrap_err(), UniversalGameError::InvalidGameState);
    assert_eq!(m.status, MatchStatus::Completed);
}

#[test]
fn dice_settlement_tie_breaks() {
    // Higher sum wins.
    let mut m = running_match(GameType::Dice, 10);
    m.submit_move(CREATOR, &vec![6, 5], 200).unwrap();
    m.submit_move(OPPONENT, &vec![3, 2], 210).unwrap();
    let (result, _) = m.settle_match(250).unwrap();
    assert_eq!(result, GameResult::Player1Wins);
    // Equal sums: the highest single die decides.
    let mut m2 = running_match(GameType::Dice, 10);
    m2.submit_move(CREATOR, &vec![6, 1], 200).unwrap();
    m2.submit_move(OPPONENT, &vec![5, 2], 210).unwrap();
    let (result2, _) = m2.settle_match(250).unwrap();
    assert_eq!(result2, GameResult::Player1Wins);
    // Equal sums and equal highest die: a draw.
    let mut m3 = running_match(GameType::Dice, 10);
    m3.submit_move(CREATOR, &vec![4, 3], 200).unwrap();
    m3.submit_move(OPPONENT, &vec![3, 4], 210).unwrap();
    let (result3, _) = m3.settle_match(250).unwrap();
    assert_eq!(result3, GameResult::Draw);
}

#[test]
fn submit_move_validations() {
    let mut m = running_match(GameType::RockPaperScissors, 10);
    assert_eq!(m.submit_move(77, &vec![0], 200).unwrap_err(), UniversalGameError::Unauthorized);
    assert_eq!(
        m.submit_move(CREATOR, &vec![3], 200).unwrap_err(),
        UniversalGameError::InvalidGameState
    );
    assert_eq!(
        m.submit_move(CREATOR, &vec![], 200).unwrap_err(),
        UniversalGameError::InvalidGameState
    );
    assert_eq!(
        m.submit_move(CREATOR, &vec![0], 100_000).unwrap_err(),
        UniversalGameError::MatchTimeout
    );
    let mut dice = running_match(GameType::Dice, 10);
    assert_eq!(
        dice.submit_move(CREATOR, &vec![0, 7], 200).unwrap_err(),
        UniversalGameError::InvalidGameState
    );
}

#[test]
fn submit_move_never_overflows_buffer() {
    let mut m = running_match(GameType::RockPaperScissors, 10);
    let big = vec![0u8; 255];
    assert!(m.submit_move(CREATOR, &big, 200).is_ok());
    let len_before = m.game_state.len();
    assert_eq!(
        m.submit_move(OPPONENT, &big, 210).unwrap_err(),
        UniversalGameError::InvalidGameState,
        "a move that would overflow the state buffer is rejected, never truncated"
    );
    assert_eq!(m.game_state.len(), len_before);
}

#[test]
fn universal_join_validations() {
    let mut m = create_universal_match(7, GameType::Dice, CREATOR, 50, config(10, 100), 0)
        .unwrap();
    assert_eq!(m.join_match(CREATOR, 100).unwrap_err(), UniversalGameError::Unauthorized);
    assert_eq!(m.join_match(OPPONENT, 100_000).unwrap_err(), UniversalGameError::MatchTimeout);
    m.join_match(OPPONENT, 100).unwrap();
    assert_eq!(m.status, MatchStatus::InProgress);
    assert_eq!(m.join_match(33, 120).unwrap_err(), UniversalGameError::MatchAlreadyStarted);
}

#[test]
fn can_timeout_deadlines() {
    let m = create_universal_match(7, GameType::Dice, CREATOR, 50, config(10, 100), 0).unwrap();
    assert!(!m.can_timeout(300));
    assert!(m.can_timeout(301));
    assert_eq!(m.calculate_winner_amount(), m.total_pot);
}

#[test]
fn game_type_wire_round_trip() {
    let kinds = [
        GameType::RockPaperScissors,
        GameType::Dice,
        GameType::CoinFlip,
        GameType::HighCard,
        GameType::TicTacToe,
        GameType::Slots,
        GameType::Poker,
        GameType::Blackjack,
        GameType::Custom(0),
        GameType::Custom(500),
    ];
    for t in kinds {
        assert_eq!(GameType::from_u16(t.to_u16()).unwrap(), t);
    }
    assert_eq!(GameType::Custom(5).to_u16(), 1005);
    assert_eq!(GameType::from_u16(8).unwrap_err(), UniversalGameError::InvalidGameType);
    assert_eq!(GameType::from_u16(999).unwrap_err(), UniversalGameError::InvalidGameType);
}

#[test]
fn state_encoder_rejects_oversize() {
    let small = vec![1u8; 128];
    assert_eq!(StateEncoder::compress(&small).unwrap(), small);
    assert!(StateEncoder::validate(&small));
    let big = vec![1u8; 129];
    assert_eq!(
        StateEncoder::compress(&big).unwrap_err(),
        UniversalGameError::InvalidGameState,
        "oversized state is a hard error, never truncated"
    );
    assert!(!StateEncoder::validate(&big));
    assert_eq!(StateEncoder::decompress(&small).unwrap(), small);
}
