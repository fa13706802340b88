use pong::entity::{Entity, Rectangle, Vec2};
use pong::sim::{GameState, Input, Phase};

fn input_none() -> Input {
    Input::none()
}

/// Paddles 16 x 100 px, ball 16 x 16 px, in hundredths of a pixel.
fn fresh_game() -> GameState {
    GameState::new(1600, 10000, 1600, 10000, 1600, 1600)
}

/// A game mid-rally: phase `Playing`, everything at its starting place.
fn playing_game() -> GameState {
    let mut game = fresh_game();
    game.phase = Phase::Playing;
    game.ball.velocity = Vec2 { x: -900, y: 0 };
    game
}

#[test]
fn initial_layout() {
    let game = fresh_game();
    assert_eq!(game.phase, Phase::Menu);
    assert_eq!(game.player1.position, Vec2 { x: 1600, y: 19000 });
    assert_eq!(game.player2.position, Vec2 { x: 60800, y: 19000 });
    assert_eq!(game.ball.position, Vec2 { x: 31200, y: 23200 });
    assert_eq!(game.ball.velocity, Vec2 { x: -900, y: 0 });
    assert_eq!(game.player1.points, 0);
    assert_eq!(game.player2.points, 0);
    assert_eq!(game.end_text, "");
}

#[test]
fn entity_accessors() {
    let e = Entity::with_velocity(
        Vec2 { x: 100, y: 200 },
        Vec2 { x: -5, y: 7 },
        1600,
        10000,
        0,
    );
    assert_eq!(e.width(), 1600);
    assert_eq!(e.height(), 10000);
    let b = e.bounds();
    assert_eq!((b.x, b.y, b.width, b.height), (100, 200, 1600, 10000));
    let c = e.centre();
    assert_eq!(c, Vec2 { x: 900, y: 5200 });
    let p = Entity::with_points(Vec2 { x: 0, y: 0 }, Vec2 { x: 0, y: 0 }, 10, 10, 3);
    assert_eq!(p.points, 3);
}

#[test]
fn rectangles_overlap_strictly() {
    let a = Rectangle { x: 0, y: 0, width: 10, height: 10 };
    let b = Rectangle { x: 9, y: 9, width: 10, height: 10 };
    let touching = Rectangle { x: 10, y: 0, width: 10, height: 10 };
    assert!(a.intersects(&b));
    assert!(b.intersects(&a));
    assert!(!a.intersects(&touching));
    assert!(!touching.intersects(&a));
}

#[test]
fn start_begins_play() {
    let mut game = fresh_game();
    let mut input = input_none();
    input.start = true;
    let ev = game.update(&input);
    assert_eq!(game.phase, Phase::Playing);
    assert_eq!(game.ball.velocity, Vec2 { x: -900, y: 0 });
    assert_eq!(game.player1.position.y, 19000);
    assert_eq!(game.player2.position.y, 19000);
    assert!(!ev.quit);
    assert!(!ev.hit_sound);
    // The first frame of play has already integrated the recentred ball.
    assert_eq!(game.ball.position, Vec2 { x: 30300, y: 23200 });
}

#[test]
fn quit_requested_in_menu() {
    let mut game = fresh_game();
    let mut input = input_none();
    input.quit = true;
    let ev = game.update(&input);
    assert!(ev.quit);
    assert_eq!(game.phase, Phase::Menu);
}

#[test]
fn start_takes_precedence_over_quit() {
    let mut game = fresh_game();
    let mut input = input_none();
    input.start = true;
    input.quit = true;
    let ev = game.update(&input);
    assert!(!ev.quit);
    assert_eq!(game.phase, Phase::Playing);
}

#[test]
fn paddle_clamped_at_top() {
    let mut game = playing_game();
    game.player1.position.y = 0;
    game.ball.velocity = Vec2 { x: 0, y: 0 };
    let mut input = input_none();
    input.p1_up = true;
    game.update(&input);
    assert_eq!(game.player1.position.y, 0);
}

#[test]
fn paddle_clamped_at_bottom() {
    let mut game = playing_game();
    game.player2.position.y = 38000;
    let mut input = input_none();
    input.p2_down = true;
    game.update(&input);
    assert_eq!(game.player2.position.y, 38000);
}

#[test]
fn paddle_partial_step_stops_at_top() {
    let mut game = playing_game();
    game.player1.position.y = 500;
    let mut input = input_none();
    input.p1_up = true;
    game.update(&input);
    assert_eq!(game.player1.position.y, 0);
}

#[test]
fn paddles_move_by_speed() {
    let mut game = playing_game();
    let mut input = input_none();
    input.p1_up = true;
    input.p2_down = true;
    game.update(&input);
    assert_eq!(game.player1.position.y, 19000 - 1200);
    assert_eq!(game.player2.position.y, 19000 + 1200);
}

#[test]
fn both_keys_cancel_out() {
    let mut game = playing_game();
    let mut input = input_none();
    input.p1_up = true;
    input.p1_down = true;
    game.update(&input);
    assert_eq!(game.player1.position.y, 19000);
}

#[test]
fn ball_moves_by_velocity() {
    let mut game = playing_game();
    game.ball.position = Vec2 { x: 30000, y: 20000 };
    game.ball.velocity = Vec2 { x: -900, y: 300 };
    let ev = game.update(&input_none());
    assert_eq!(game.ball.position, Vec2 { x: 29100, y: 20300 });
    assert_eq!(game.ball.velocity, Vec2 { x: -900, y: 300 });
    assert!(!ev.hit_sound);
}

#[test]
fn ball_reflects_off_top_wall() {
    let mut game = playing_game();
    game.ball.position = Vec2 { x: 30000, y: 100 };
    game.ball.velocity = Vec2 { x: -900, y: -300 };
    game.update(&input_none());
    // The position may clip past the wall for a frame; only the velocity flips.
    assert_eq!(game.ball.position, Vec2 { x: 29100, y: -200 });
    assert_eq!(game.ball.velocity, Vec2 { x: -900, y: 300 });
}

#[test]
fn ball_reflects_off_bottom_wall() {
    let mut game = playing_game();
    game.ball.position = Vec2 { x: 30000, y: 46200 };
    game.ball.velocity = Vec2 { x: -900, y: 300 };
    game.update(&input_none());
    assert_eq!(game.ball.position.y, 46500);
    assert_eq!(game.ball.velocity.y, -300);
}

#[test]
fn paddle_hit_reverses_and_speeds_up() {
    let mut game = playing_game();
    game.ball.position = Vec2 { x: 4000, y: 23000 };
    game.ball.velocity = Vec2 { x: -900, y: 0 };
    let ev = game.update(&input_none());
    assert!(ev.hit_sound);
    assert_eq!(game.ball.position, Vec2 { x: 3100, y: 23000 });
    // Reversed and 0.05 px/frame faster: -(-900 + 5 * -1) = 905.
    assert_eq!(game.ball.velocity.x, 905);
    // Struck 2 px above the paddle's centre: spin of -8 (upward).
    assert_eq!(game.ball.velocity.y, -8);
}

#[test]
fn ball_passes_left_paddle_without_contact() {
    let mut game = playing_game();
    game.ball.position = Vec2 { x: 10000, y: 500 };
    game.ball.velocity = Vec2 { x: -900, y: 0 };
    let ev = game.update(&input_none());
    // Vertically clear of the paddle: no hit.
    assert!(!ev.hit_sound);
    assert_eq!(game.ball.velocity.x, -900);
}

#[test]
fn ball_out_left_scores_for_player2() {
    let mut game = playing_game();
    game.player1.position.y = 5000;
    game.player2.position.y = 30000;
    game.ball.position = Vec2 { x: 899, y: 10000 };
    game.ball.velocity = Vec2 { x: -900, y: 0 };
    let ev = game.update(&input_none());
    assert_eq!(game.player2.points, 1);
    assert_eq!(game.player1.points, 0);
    assert_eq!(game.ball.position, Vec2 { x: 31200, y: 23200 });
    assert_eq!(game.ball.velocity, Vec2 { x: -900, y: 0 });
    assert_eq!(game.player1.position, Vec2 { x: 1600, y: 19000 });
    assert_eq!(game.player2.position, Vec2 { x: 60800, y: 19000 });
    assert_eq!(game.phase, Phase::Playing);
    assert!(!ev.hit_sound);
}

#[test]
fn ball_out_right_scores_for_player1() {
    let mut game = playing_game();
    game.ball.position = Vec2 { x: 63200, y: 10000 };
    game.ball.velocity = Vec2 { x: 900, y: 0 };
    game.update(&input_none());
    assert_eq!(game.player1.points, 1);
    assert_eq!(game.player2.points, 0);
    assert_eq!(game.ball.position, Vec2 { x: 31200, y: 23200 });
    assert_eq!(game.phase, Phase::Playing);
}

#[test]
fn eleventh_point_ends_game_player1() {
    let mut game = playing_game();
    game.player1.points = 10;
    game.ball.position = Vec2 { x: 63200, y: 10000 };
    game.ball.velocity = Vec2 { x: 900, y: 0 };
    game.update(&input_none());
    assert_eq!(game.player1.points, 11);
    assert_eq!(game.phase, Phase::Ended);
    assert_eq!(game.end_text, "Player 1 wins");
}

#[test]
fn eleventh_point_ends_game_player2() {
    let mut game = playing_game();
    game.player2.points = 10;
    game.ball.position = Vec2 { x: 899, y: 10000 };
    game.ball.velocity = Vec2 { x: -900, y: 0 };
    game.update(&input_none());
    assert_eq!(game.player2.points, 11);
    assert_eq!(game.phase, Phase::Ended);
    assert_eq!(game.end_text, "Player 2 wins");
}

#[test]
fn tenth_point_does_not_end_game() {
    let mut game = playing_game();
    game.player1.points = 9;
    game.ball.position = Vec2 { x: 63200, y: 10000 };
    game.ball.velocity = Vec2 { x: 900, y: 0 };
    game.update(&input_none());
    assert_eq!(game.player1.points, 10);
    assert_eq!(game.phase, Phase::Playing);
    assert_eq!(game.end_text, "");
}

fn ended_game() -> GameState {
    let mut game = fresh_game();
    game.phase = Phase::Ended;
    game.player1.points = 11;
    game.player2.points = 3;
    game.end_text = String::from("Player 1 wins");
    game.player1.position.y = 12000;
    game
}

#[test]
fn restart_resets_scores_and_positions() {
    let mut game = ended_game();
    let mut input = input_none();
    input.restart = true;
    game.update(&input);
    assert_eq!(game.phase, Phase::Playing);
    assert_eq!(game.player1.points, 0);
    assert_eq!(game.player2.points, 0);
    assert_eq!(game.player1.position, Vec2 { x: 1600, y: 19000 });
    assert_eq!(game.player2.position, Vec2 { x: 60800, y: 19000 });
    assert_eq!(game.ball.velocity, Vec2 { x: -900, y: 0 });
}

#[test]
fn menu_key_keeps_scores() {
    let mut game = ended_game();
    let mut input = input_none();
    input.menu = true;
    game.update(&input);
    assert_eq!(game.phase, Phase::Menu);
    assert_eq!(game.player1.points, 11);
    assert_eq!(game.player2.points, 3);
    assert_eq!(game.player1.position.y, 12000);
}

#[test]
fn restart_takes_precedence_over_menu() {
    let mut game = ended_game();
    let mut input = input_none();
    input.restart = true;
    input.menu = true;
    game.update(&input);
    assert_eq!(game.phase, Phase::Playing);
}

#[test]
fn end_screen_ignores_start_key() {
    let mut game = ended_game();
    let mut input = input_none();
    input.start = true;
    game.update(&input);
    assert_eq!(game.phase, Phase::Ended);
    assert_eq!(game.player1.points, 11);
}

#[test]
fn rally_without_scoring_stays_in_play() {
    let mut game = fresh_game();
    let mut input = input_none();
    input.start = true;
    game.update(&input);
    for _ in 0..10 {
        game.update(&input_none());
        assert_eq!(game.phase, Phase::Playing);
        assert_eq!(game.player1.points, 0);
        assert_eq!(game.player2.points, 0);
    }
}
