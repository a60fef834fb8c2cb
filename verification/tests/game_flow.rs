use breakout::game_state::{
    AppState, BallCollisionSignals, BallVerdict, CollisionWith, Game, GameOutcome, PlayState,
    BRICK_POINTS, STARTING_LIVES,
};
use breakout::hud::{lives_text, overlay_message, score_text};
use breakout::layout::{run_layout, BRICK_COLS, BRICK_ROWS};

fn overlay(game: &Game) -> &'static str {
    overlay_message(game.app_state(), game.play_state(), game.outcome())
}

/// Breaks `n` bricks in a row.
fn break_bricks(game: &mut Game, signals: &mut BallCollisionSignals<f32>, n: usize) {
    for _ in 0..n {
        assert!(game.on_ball_collision(signals, CollisionWith::Brick));
    }
}

/// One frame in which the ball falls below the screen and nothing was hit.
fn fall(game: &mut Game, signals: &mut BallCollisionSignals<f32>) -> BallVerdict {
    game.ball_movement(signals, Some(true)).verdict
}

#[test]
fn first_launch_starts_a_playing_run() {
    let game = Game::new();
    assert_eq!(game.app_state(), AppState::InGame);
    assert_eq!(game.play_state(), Some(PlayState::Playing));
    assert!(!game.physics_paused());
    let layout = run_layout();
    assert_eq!(layout.bricks.len(), BRICK_ROWS * BRICK_COLS);
    assert_eq!(lives_text(game.lives()), "Lives: 3");
    assert_eq!(score_text(game.score()), "Score: 0");
    assert_eq!(overlay(&game), "");
}

#[test]
fn p_and_esc_toggle_pause_and_the_physics_clock() {
    let mut game = Game::new();

    game.toggle_pause(true);
    assert_eq!(game.play_state(), Some(PlayState::Paused));
    assert!(game.physics_paused());
    assert!(overlay(&game).starts_with("Paused"));

    game.toggle_pause(true);
    assert_eq!(game.play_state(), Some(PlayState::Playing));
    assert!(!game.physics_paused());
    assert_eq!(overlay(&game), "");

    game.toggle_pause(true);
    assert_eq!(game.play_state(), Some(PlayState::Paused));
    game.toggle_pause(true);
    assert_eq!(game.play_state(), Some(PlayState::Playing));
}

#[test]
fn losing_the_last_life_ends_the_run_and_r_starts_a_fresh_one() {
    let mut game = Game::new();
    let mut signals = BallCollisionSignals::<f32>::default();
    for _ in 0..12 {
        assert!(game.on_ball_collision(&mut signals, CollisionWith::Brick));
    }
    signals = BallCollisionSignals::default();
    assert_eq!(game.score(), 120);
    assert_eq!(fall(&mut game, &mut signals), BallVerdict::RespawnBall);
    assert_eq!(fall(&mut game, &mut signals), BallVerdict::RespawnBall);
    assert_eq!(game.lives(), 1);
    assert_eq!(fall(&mut game, &mut signals), BallVerdict::Lost);

    assert_eq!(game.app_state(), AppState::GameOver);
    assert_eq!(game.play_state(), None);
    assert_eq!(game.outcome(), Some(GameOutcome::Lost));
    assert!(game.physics_paused());
    assert!(overlay(&game).starts_with("GAME OVER"));

    // P/Esc do nothing outside a run.
    game.toggle_pause(true);
    assert_eq!(game.app_state(), AppState::GameOver);

    assert!(game.restart_from_game_over(true, &mut signals));
    assert_eq!(game.app_state(), AppState::InGame);
    assert_eq!(game.play_state(), Some(PlayState::Playing));
    assert!(!game.physics_paused());
    assert_eq!(game.score(), 0);
    assert_eq!(game.lives(), STARTING_LIVES);
    assert_eq!(run_layout().bricks.len(), BRICK_ROWS * BRICK_COLS);
    assert_eq!(lives_text(game.lives()), "Lives: 3");
    assert_eq!(overlay(&game), "");
}

#[test]
fn losing_a_life_that_is_not_the_last_keeps_playing() {
    let mut game = Game::new();
    let mut signals = BallCollisionSignals::<f32>::default();
    assert_eq!(fall(&mut game, &mut signals), BallVerdict::RespawnBall);

    assert_eq!(game.app_state(), AppState::InGame);
    assert_eq!(game.lives(), STARTING_LIVES - 1);
    assert_eq!(lives_text(game.lives()), "Lives: 2");
}

#[test]
fn breaking_the_last_brick_wins() {
    let mut game = Game::new();
    let mut signals = BallCollisionSignals::<f32>::default();
    // Every brick but one broken in earlier frames.
    break_bricks(&mut game, &mut signals, BRICK_ROWS * BRICK_COLS - 1);
    assert_eq!(game.ball_movement(&mut signals, Some(false)).verdict, BallVerdict::Continue);
    // The last one breaks this frame.
    break_bricks(&mut game, &mut signals, 1);
    let frame = game.ball_movement(&mut signals, Some(false));
    assert_eq!(frame.verdict, BallVerdict::Won);

    assert_eq!(game.app_state(), AppState::GameOver);
    assert_eq!(game.outcome(), Some(GameOutcome::Won));
    assert!(game.physics_paused());
    assert!(overlay(&game).starts_with("YOU WIN"));

    assert!(game.restart_from_game_over(true, &mut signals));
    assert_eq!(game.app_state(), AppState::InGame);
    assert_eq!(run_layout().bricks.len(), BRICK_ROWS * BRICK_COLS);
    assert_eq!(game.bricks_left(), BRICK_ROWS * BRICK_COLS);
}

#[test]
fn pausing_twice_gives_back_the_same_state() {
    let mut game = Game::new();
    game.toggle_pause(true);
    game.toggle_pause(true);
    assert_eq!(game.app_state(), AppState::InGame);
    assert_eq!(game.play_state(), Some(PlayState::Playing));
    assert!(!game.physics_paused());
}

#[test]
fn keys_not_pressed_change_nothing() {
    let mut game = Game::new();
    let mut signals = BallCollisionSignals::<f32>::default();
    game.toggle_pause(false);
    assert_eq!(game.play_state(), Some(PlayState::Playing));
    assert!(!game.restart_from_game_over(true, &mut signals));
    assert_eq!(game.app_state(), AppState::InGame);
}

#[test]
fn r_needs_a_press_on_the_game_over_screen() {
    let mut game = Game::new();
    let mut signals = BallCollisionSignals::<f32>::default();
    game.end_run(GameOutcome::Lost);
    assert!(!game.restart_from_game_over(false, &mut signals));
    assert_eq!(game.app_state(), AppState::GameOver);
}

#[test]
fn a_paused_run_ignores_the_ball() {
    let mut game = Game::new();
    let mut signals = BallCollisionSignals::<f32>::default();
    signals.broke_brick = true;
    game.toggle_pause(true);
    let frame = game.ball_movement(&mut signals, Some(true));
    assert_eq!(frame.verdict, BallVerdict::Idle);
    assert!(signals.broke_brick);
    assert_eq!(game.lives(), STARTING_LIVES);
    assert_eq!(game.app_state(), AppState::InGame);
}

#[test]
fn a_brick_scores_its_points_and_is_despawned() {
    let mut game = Game::new();
    let mut signals = BallCollisionSignals::<f32>::default();
    assert!(game.on_ball_collision(&mut signals, CollisionWith::Brick));
    assert_eq!(game.score(), BRICK_POINTS);
    assert!(signals.broke_brick);
    assert!(!game.on_ball_collision(&mut signals, CollisionWith::Paddle(12.5)));
    assert_eq!(signals.paddle_hit_x, Some(12.5));
    assert!(!game.on_ball_collision(&mut signals, CollisionWith::Other));
    assert_eq!(game.score(), BRICK_POINTS);
}

#[test]
fn the_ball_step_hands_back_the_paddle_hit_and_clears_the_signals() {
    let mut game = Game::new();
    let mut signals = BallCollisionSignals::<f32>::default();
    game.on_ball_collision(&mut signals, CollisionWith::Paddle(-40.0));
    let frame = game.ball_movement(&mut signals, Some(false));
    assert_eq!(frame.verdict, BallVerdict::Continue);
    assert_eq!(frame.paddle_hit_x, Some(-40.0));
    assert!(!signals.broke_brick);
    assert_eq!(signals.paddle_hit_x, None);
}

#[test]
fn no_ball_means_no_verdict_but_the_signals_are_spent() {
    let mut game = Game::new();
    let mut signals = BallCollisionSignals::<f32>::default();
    signals.broke_brick = true;
    signals.paddle_hit_x = Some(3.0);
    let frame = game.ball_movement(&mut signals, None);
    assert_eq!(frame.verdict, BallVerdict::NoBall);
    assert_eq!(frame.paddle_hit_x, None);
    assert!(!signals.broke_brick);
    assert_eq!(game.app_state(), AppState::InGame);
}

#[test]
fn a_broken_brick_with_more_left_does_not_win() {
    let mut game = Game::new();
    let mut signals = BallCollisionSignals::<f32>::default();
    break_bricks(&mut game, &mut signals, 1);
    let frame = game.ball_movement(&mut signals, Some(false));
    assert_eq!(frame.verdict, BallVerdict::Continue);
    assert_eq!(game.app_state(), AppState::InGame);
}

#[test]
fn breaking_the_second_to_last_brick_does_not_win() {
    let mut game = Game::new();
    let mut signals = BallCollisionSignals::<f32>::default();
    break_bricks(&mut game, &mut signals, BRICK_ROWS * BRICK_COLS - 2);
    game.ball_movement(&mut signals, Some(false));
    break_bricks(&mut game, &mut signals, 1);
    assert_eq!(game.bricks_left(), 1);
    let frame = game.ball_movement(&mut signals, Some(false));
    assert_eq!(frame.verdict, BallVerdict::Continue);
    assert_eq!(game.app_state(), AppState::InGame);
    assert_eq!(game.outcome(), None);
}

#[test]
fn score_is_ten_points_per_brick_broken() {
    let mut game = Game::new();
    let mut signals = BallCollisionSignals::<f32>::default();
    for k in 1..=BRICK_ROWS * BRICK_COLS {
        break_bricks(&mut game, &mut signals, 1);
        assert_eq!(game.score(), BRICK_POINTS * k as i32);
        assert_eq!(game.bricks_left(), BRICK_ROWS * BRICK_COLS - k);
    }
    assert_eq!(score_text(game.score()), "Score: 600");
}

#[test]
fn winning_takes_precedence_over_a_fall() {
    let mut game = Game::new();
    let mut signals = BallCollisionSignals::<f32>::default();
    break_bricks(&mut game, &mut signals, BRICK_ROWS * BRICK_COLS);
    let frame = game.ball_movement(&mut signals, Some(true));
    assert_eq!(frame.verdict, BallVerdict::Won);
    assert_eq!(game.lives(), STARTING_LIVES);
}

#[test]
fn a_new_run_clears_the_collision_signals() {
    let mut game = Game::new();
    let mut signals = BallCollisionSignals::<f32>::default();
    signals.broke_brick = true;
    signals.paddle_hit_x = Some(1.0);
    game.on_ball_collision(&mut signals, CollisionWith::Brick);
    game.start_run(&mut signals);
    assert_eq!(game.bricks_left(), BRICK_ROWS * BRICK_COLS);
    assert!(!signals.broke_brick);
    assert_eq!(signals.paddle_hit_x, None);
    assert_eq!(game.score(), 0);
    assert_eq!(game.lives(), STARTING_LIVES);
}

#[test]
fn overlay_texts() {
    assert_eq!(
        overlay_message(AppState::InGame, Some(PlayState::Paused), None),
        "Paused - Press P or Esc to Resume"
    );
    assert_eq!(
        overlay_message(AppState::GameOver, None, Some(GameOutcome::Won)),
        "YOU WIN! - Press R to Restart"
    );
    assert_eq!(
        overlay_message(AppState::GameOver, None, Some(GameOutcome::Lost)),
        "GAME OVER - Press R to Restart"
    );
    assert_eq!(overlay_message(AppState::GameOver, None, None), "GAME OVER - Press R to Restart");
    assert_eq!(overlay_message(AppState::InGame, Some(PlayState::Playing), None), "");
    assert_eq!(overlay_message(AppState::MainMenu, None, None), "");
}

#[test]
fn default_states() {
    assert_eq!(AppState::default(), AppState::InGame);
    assert_eq!(PlayState::default(), PlayState::Playing);
}
