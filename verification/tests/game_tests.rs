use breakout_rules::board::{BrickCell, BrickDestroyed};
use breakout_rules::game::{
    awaits_launch, check_ball_deathzone_collision, check_game_clear, gameplay_runs,
    launch_ball_on_click, notify_game_clear, notify_game_over, on_game_clear, on_game_over,
    reset_game, check_ball_brick_collision, GameNotification, GameResult, GameState, Lives, Platform, Score,
    INITIAL_LIVES,
};

#[test]
fn a_game_starts_waiting_for_a_click() {
    assert_eq!(GameState::default(), GameState::GameStart);
    assert!(awaits_launch(GameState::GameStart));
    assert!(awaits_launch(GameState::GameRestart));
    assert!(!awaits_launch(GameState::Playing));
    assert!(gameplay_runs(GameState::Playing));
    assert!(!gameplay_runs(GameState::Cleared));
    assert_eq!(launch_ball_on_click(true), Some(GameState::Playing));
    assert_eq!(launch_ball_on_click(false), None);
}

#[test]
fn the_last_life_ends_the_game() {
    let mut lives = Lives(INITIAL_LIVES);
    for left in (1..INITIAL_LIVES).rev() {
        assert_eq!(check_ball_deathzone_collision(&mut lives), None);
        assert_eq!(lives, Lives(left));
    }
    assert_eq!(check_ball_deathzone_collision(&mut lives), Some(GameState::GameOver));
    assert_eq!(lives, Lives(0));
    assert_eq!(check_ball_deathzone_collision(&mut lives), Some(GameState::GameOver));
    assert_eq!(lives, Lives(0));
}

#[test]
fn destroyed_bricks_score() {
    let mut score = Score(0);
    let cell = BrickCell { row: 3, col: 4 };
    assert_eq!(check_ball_brick_collision(&mut score, cell), BrickDestroyed { cell });
    assert_eq!(check_ball_brick_collision(&mut score, cell), BrickDestroyed { cell });
    assert_eq!(score, Score(2));
}

#[test]
fn an_empty_board_is_cleared() {
    assert_eq!(check_game_clear(0), Some(GameState::Cleared));
    assert_eq!(check_game_clear(1), None);
    assert_eq!(check_game_clear(162), None);
}

#[test]
fn a_reset_gives_a_fresh_board() {
    let mut score = Score(17);
    let mut lives = Lives(0);
    reset_game(&mut score, &mut lives);
    assert_eq!(score, Score(0));
    assert_eq!(lives, Lives(5));
}

#[test]
fn finished_games_notify_the_page() {
    assert_eq!(notify_game_clear(12), GameNotification { result: GameResult::Clear, score: 12 });
    assert_eq!(notify_game_over(3), GameNotification { result: GameResult::GameOver, score: 3 });
    assert_eq!(GameResult::Clear.event_name(), "breakout:gameclear");
    assert_eq!(GameResult::GameOver.event_name(), "breakout:gameover");
    assert_eq!(GameResult::Clear.detail_result(), "clear");
    assert_eq!(GameResult::GameOver.detail_result(), "gameover");
}

#[test]
fn native_builds_restart_and_the_web_waits() {
    let score = Score(40);
    assert_eq!(
        on_game_clear(&score, Platform::Web),
        (GameNotification { result: GameResult::Clear, score: 40 }, None)
    );
    assert_eq!(
        on_game_clear(&score, Platform::Native),
        (GameNotification { result: GameResult::Clear, score: 40 }, Some(GameState::GameRestart))
    );
    assert_eq!(
        on_game_over(&score, Platform::Web),
        (GameNotification { result: GameResult::GameOver, score: 40 }, None)
    );
    assert_eq!(
        on_game_over(&score, Platform::Native),
        (GameNotification { result: GameResult::GameOver, score: 40 }, Some(GameState::GameRestart))
    );
}
