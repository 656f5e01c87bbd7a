//! The game's rules: its states, score and lives, what each event does to them,
//! and the notifications sent to the page that embeds the game.

use vstd::prelude::*;

use crate::board::{BrickCell, BrickDestroyed};

verus! {

/// The lives a player starts with.
pub const INITIAL_LIVES: usize = 5;

/// The state of a game.
/// - `GameStart`: waiting for the first click; the board is set up at start-up.
/// - `Playing`: the ball is in play; the gameplay rules run only in this state.
/// - `Cleared`: every brick is gone.
/// - `GameOver`: no lives are left.
/// - `GameRestart`: after a loss (native builds), the board is rebuilt and the
///   game waits for a click; it never goes back to `GameStart`.
#[derive(Clone, Copy, Debug, PartialEq, Eq, Structural, Hash)]
pub enum GameState {
    GameStart,
    Playing,
    Cleared,
    GameOver,
    GameRestart,
}

impl Default for GameState {
    /// A game begins waiting for its first click.
    fn default() -> (r: Self)
        ensures
            r == GameState::GameStart,
    {
        GameState::GameStart
    }
}

/// The number of bricks destroyed since the board was last set up.
#[derive(Clone, Copy, Debug, PartialEq, Eq, Structural)]
pub struct Score(pub usize);

/// The lives left; each time the ball reaches the death zone one is lost.
#[derive(Clone, Copy, Debug, PartialEq, Eq, Structural)]
pub struct Lives(pub usize);

/// Where the game runs: in a web page, which is told when the game ends, or
/// natively, where a lost or cleared game restarts at once.
#[derive(Clone, Copy, Debug, PartialEq, Eq, Structural)]
pub enum Platform {
    Web,
    Native,
}

/// How a game ended.
#[derive(Clone, Copy, Debug, PartialEq, Eq, Structural)]
pub enum GameResult {
    Clear,
    GameOver,
}

/// A notification for the embedding page: a `CustomEvent` named by the
/// result, whose detail carries the result and the final score.
#[derive(Clone, Copy, Debug, PartialEq, Eq, Structural)]
pub struct GameNotification {
    pub result: GameResult,
    pub score: usize,
}

impl GameResult {
    /// The name of the page event that announces this result.
    pub fn event_name(&self) -> (r: &'static str)
        ensures
            *self == GameResult::Clear ==> r@ == "breakout:gameclear"@,
            *self == GameResult::GameOver ==> r@ == "breakout:gameover"@,
    {
        match self {
            GameResult::Clear => "breakout:gameclear",
            GameResult::GameOver => "breakout:gameover",
        }
    }

    /// The `result` field of the event's detail, which lets one handler tell the
    /// two results apart.
    pub fn detail_result(&self) -> (r: &'static str)
        ensures
            *self == GameResult::Clear ==> r@ == "clear"@,
            *self == GameResult::GameOver ==> r@ == "gameover"@,
    {
        match self {
            GameResult::Clear => "clear",
            GameResult::GameOver => "gameover",
        }
    }
}

/// The notification that the game was cleared with `score`.
pub fn notify_game_clear(score: usize) -> (r: GameNotification)
    ensures
        r == (GameNotification { result: GameResult::Clear, score }),
{
    GameNotification { result: GameResult::Clear, score }
}

/// The notification that the game was lost with `score`.
pub fn notify_game_over(score: usize) -> (r: GameNotification)
    ensures
        r == (GameNotification { result: GameResult::GameOver, score }),
{
    GameNotification { result: GameResult::GameOver, score }
}

/// Whether the gameplay rules (ball movement, paddle, collisions, the board
/// check) run in `state`.
pub open spec fn spec_gameplay_runs(state: GameState) -> bool {
    state == GameState::Playing
}

/// Whether a click launches the ball in `state`.
pub open spec fn spec_awaits_launch(state: GameState) -> bool {
    state == GameState::GameStart || state == GameState::GameRestart
}

/// Whether the gameplay rules run in `state`: only while playing.
pub fn gameplay_runs(state: GameState) -> (r: bool)
    ensures
        r == spec_gameplay_runs(state),
{
    state == GameState::Playing
}

/// Whether the game waits for a click to launch the ball in `state`: at the
/// start and after a restart.
pub fn awaits_launch(state: GameState) -> (r: bool)
    ensures
        r == spec_awaits_launch(state),
{
    state == GameState::GameStart || state == GameState::GameRestart
}

/// While waiting for a launch, a left click launches the ball and the game is
/// played; without one nothing changes.
pub fn launch_ball_on_click(left_just_pressed: bool) -> (r: Option<GameState>)
    ensures
        left_just_pressed ==> r == Some(GameState::Playing),
        !left_just_pressed ==> r is None,
{
    if left_just_pressed {
        Some(GameState::Playing)
    } else {
        None
    }
}

/// When no brick is left the game is cleared; otherwise play goes on.
pub fn check_game_clear(brick_count: usize) -> (r: Option<GameState>)
    ensures
        brick_count == 0 ==> r == Some(GameState::Cleared),
        brick_count != 0 ==> r is None,
{
    if brick_count == 0 {
        Some(GameState::Cleared)
    } else {
        None
    }
}

/// The ball destroyed the brick at `cell`: the score goes up by one and the
/// neighbours hear that the brick is gone.
pub fn check_ball_brick_collision(score: &mut Score, cell: BrickCell) -> (r: BrickDestroyed)
    requires
        old(score).0 < usize::MAX,
    ensures
        final(score).0 == old(score).0 + 1,
        r == (BrickDestroyed { cell }),
{
    score.0 = score.0 + 1;
    BrickDestroyed { cell }
}

/// The lives left after the ball reaches the death zone, and the state the game
/// moves to: game over when no life is left, else none (the ball is served again).
pub open spec fn spec_death_zone(lives: usize) -> (usize, Option<GameState>) {
    let left: usize = if lives == 0 { 0 } else { (lives - 1) as usize };
    (left, if left == 0 { Some(GameState::GameOver) } else { None })
}

/// The ball reached the death zone: one life is lost (never below zero); with
/// no life left the game is over, otherwise the ball and paddle are served again.
pub fn check_ball_deathzone_collision(lives: &mut Lives) -> (r: Option<GameState>)
    ensures
        (final(lives).0, r) == spec_death_zone(old(lives).0),
{
    lives.0 = lives.0.saturating_sub(1);
    if lives.0 == 0 {
        Some(GameState::GameOver)
    } else {
        None
    }
}

/// Rebuilding the board after a loss: the score starts again from zero and the
/// lives are full. The game stays in `GameRestart`, waiting for a click.
pub fn reset_game(score: &mut Score, lives: &mut Lives)
    ensures
        final(score).0 == 0,
        final(lives).0 == INITIAL_LIVES,
{
    score.0 = 0;
    lives.0 = INITIAL_LIVES;
}

/// What entering a finished state leads to: the page is notified, and a native
/// build, which has no page to leave the game to, restarts at once.
pub open spec fn spec_finish(result: GameResult, score: usize, platform: Platform) -> (GameNotification, Option<GameState>) {
    (
        GameNotification { result, score },
        if platform == Platform::Native { Some(GameState::GameRestart) } else { None },
    )
}

/// On entering `Cleared`: the page hears that the game was cleared with the
/// current score; a native build moves on to `GameRestart`.
pub fn on_game_clear(score: &Score, platform: Platform) -> (r: (GameNotification, Option<GameState>))
    ensures
        r == spec_finish(GameResult::Clear, score.0, platform),
{
    let notification = notify_game_clear(score.0);
    match platform {
        Platform::Web => (notification, None),
        Platform::Native => (notification, Some(GameState::GameRestart)),
    }
}

/// On entering `GameOver`: the page hears that the game was lost with the
/// current score; a native build moves on to `GameRestart`.
pub fn on_game_over(score: &Score, platform: Platform) -> (r: (GameNotification, Option<GameState>))
    ensures
        r == spec_finish(GameResult::GameOver, score.0, platform),
{
    let notification = notify_game_over(score.0);
    match platform {
        Platform::Web => (notification, None),
        Platform::Native => (notification, Some(GameState::GameRestart)),
    }
}


/// An event that the rules react to.
#[derive(Clone, Copy, Debug, PartialEq, Eq, Structural)]
pub enum GameEvent {
    /// A left click.
    LeftClick,
    /// The ball destroyed a brick.
    BrickHit,
    /// The ball reached the death zone.
    BallInDeathZone,
    /// No brick is left on the board.
    BoardEmpty,
}

/// A game's state, score and lives, seen as plain values.
pub struct GameView {
    pub state: GameState,
    pub score: nat,
    pub lives: nat,
}

/// A game that was just set up: waiting for the first click, no score, full lives.
pub open spec fn initial_game() -> GameView {
    GameView { state: GameState::GameStart, score: 0, lives: INITIAL_LIVES as nat }
}

/// Entering `target`: a finished state notifies the page, and on a native build
/// moves on to `GameRestart`, which rebuilds the board with no score and full lives.
pub open spec fn enter(target: GameState, score: nat, lives: nat, platform: Platform) -> GameView {
    let finished = target == GameState::Cleared || target == GameState::GameOver;
    let result = if target == GameState::Cleared { GameResult::Clear } else { GameResult::GameOver };
    if finished && spec_finish(result, 0, platform).1 == Some(GameState::GameRestart) {
        GameView { state: GameState::GameRestart, score: 0, lives: INITIAL_LIVES as nat }
    } else {
        GameView { state: target, score, lives }
    }
}

/// What one event does to a game, by the rules above: each rule applies only in
/// the states in which it runs.
pub open spec fn game_step(g: GameView, event: GameEvent, platform: Platform) -> GameView {
    match event {
        GameEvent::LeftClick => if spec_awaits_launch(g.state) {
            GameView { state: GameState::Playing, ..g }
        } else {
            g
        },
        GameEvent::BrickHit => if spec_gameplay_runs(g.state) {
            GameView { score: g.score + 1, ..g }
        } else {
            g
        },
        GameEvent::BallInDeathZone => if spec_gameplay_runs(g.state) && g.lives <= usize::MAX {
            let (left, next) = spec_death_zone(g.lives as usize);
            match next {
                Some(target) => enter(target, g.score, left as nat, platform),
                None => GameView { lives: left as nat, ..g },
            }
        } else {
            g
        },
        GameEvent::BoardEmpty => if spec_gameplay_runs(g.state) {
            enter(GameState::Cleared, g.score, g.lives, platform)
        } else {
            g
        },
    }
}

/// The consistency of a game: never more than the initial lives, and no life
/// left exactly when the game is over.
pub open spec fn consistent(g: GameView) -> bool {
    &&& g.lives <= INITIAL_LIVES
    &&& (g.lives == 0 <==> g.state == GameState::GameOver)
}

/// A new game is consistent.
pub proof fn initial_game_is_consistent()
    ensures
        consistent(initial_game()),
{
}

/// Every event keeps a game consistent: lives never exceed the initial count,
/// the game is over exactly when they run out, and so the ball is never served
/// or launched with no life left.
pub proof fn every_event_keeps_the_game_consistent(g: GameView, event: GameEvent, platform: Platform)
    requires
        consistent(g),
    ensures
        consistent(game_step(g, event, platform)),
{
}

/// A native build never rests in a finished state: clearing or losing the game
/// rebuilds the board at once and waits for a click.
pub proof fn native_games_restart_at_once(g: GameView, event: GameEvent)
    requires
        consistent(g),
        g.state != GameState::Cleared,
        g.state != GameState::GameOver,
    ensures
        game_step(g, event, Platform::Native).state != GameState::Cleared,
        game_step(g, event, Platform::Native).state != GameState::GameOver,
{
}

/// On the web a finished game stays finished: nothing but a reload (by the
/// page) leaves `Cleared` or `GameOver`.
pub proof fn web_games_stay_finished(g: GameView, event: GameEvent)
    requires
        g.state == GameState::Cleared || g.state == GameState::GameOver,
    ensures
        game_step(g, event, Platform::Web) == g,
{
}

/// No event leads back to `GameStart`: a restart after a loss waits in
/// `GameRestart`, so the start of the program and a restart stay apart.
pub proof fn no_event_returns_to_game_start(g: GameView, event: GameEvent, platform: Platform)
    requires
        g.state != GameState::GameStart,
    ensures
        game_step(g, event, platform).state != GameState::GameStart,
{
}

/// The two results reach the page under different event names and different
/// `result` tags, so one handler can tell them apart.
pub proof fn results_are_told_apart()
    ensures
        "breakout:gameclear"@ != "breakout:gameover"@,
        "clear"@ != "gameover"@,
{
    reveal_strlit("breakout:gameclear");
    reveal_strlit("breakout:gameover");
    reveal_strlit("clear");
    reveal_strlit("gameover");
    assert("breakout:gameclear"@.len() != "breakout:gameover"@.len());
    assert("clear"@.len() != "gameover"@.len());
}

/// The score changes only while playing, and then only by one destroyed brick
/// at a time, or falls back to zero when the board is rebuilt.
pub proof fn score_counts_destroyed_bricks(g: GameView, event: GameEvent, platform: Platform)
    ensures
        ({
            let h = game_step(g, event, platform);
            ||| h.score == g.score
            ||| h.score == g.score + 1 && event == GameEvent::BrickHit && g.state == GameState::Playing
            ||| h.score == 0 && h.state == GameState::GameRestart && platform == Platform::Native
        }),
{
}


/// Finishing a game tells the page the result and the score unchanged, and
/// restarts only a native build.
pub proof fn finishing_reports_the_score_unchanged(result: GameResult, score: usize, platform: Platform)
    ensures
        spec_finish(result, score, platform).0.result == result,
        spec_finish(result, score, platform).0.score == score,
        platform == Platform::Web ==> spec_finish(result, score, platform).1 is None,
        platform == Platform::Native ==> spec_finish(result, score, platform).1 == Some(GameState::GameRestart),
{
}

/// Reaching the death zone costs exactly one life while any is left and none
/// when none is; the game is over exactly when no life is left afterwards.
pub proof fn the_death_zone_costs_one_life(lives: usize)
    ensures
        lives > 0 ==> spec_death_zone(lives).0 == lives - 1,
        lives == 0 ==> spec_death_zone(lives).0 == 0,
        spec_death_zone(lives).1 == Some(GameState::GameOver) <==> lives <= 1,
        spec_death_zone(lives).1 is None <==> lives > 1,
{
}

} // verus!
