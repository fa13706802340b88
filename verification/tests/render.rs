use pong::render::{decimal_string, DrawCmd, SpriteId};
use pong::sim::{GameState, Phase};

fn game() -> GameState {
    GameState::new(1600, 10000, 1600, 10000, 1600, 1600)
}

#[test]
fn decimal_rendering() {
    assert_eq!(decimal_string(0), "0");
    assert_eq!(decimal_string(7), "7");
    assert_eq!(decimal_string(10), "10");
    assert_eq!(decimal_string(11), "11");
    assert_eq!(decimal_string(305), "305");
    assert_eq!(decimal_string(u32::MAX), "4294967295");
}

fn expect_text(cmd: &DrawCmd, content: &str, x: i64, y: i64, size: u32) {
    match cmd {
        DrawCmd::Text { content: c, x: cx, y: cy, size: cs } => {
            assert_eq!(c.as_str(), content);
            assert_eq!((*cx, *cy, *cs), (x, y, size));
        }
        other => panic!("expected text, got {:?}", other),
    }
}

fn expect_sprite(cmd: &DrawCmd, sprite: SpriteId, x: i64, y: i64) {
    match cmd {
        DrawCmd::Sprite { sprite: s, x: cx, y: cy } => {
            assert_eq!(*s, sprite);
            assert_eq!((*cx, *cy), (x, y));
        }
        other => panic!("expected sprite, got {:?}", other),
    }
}

#[test]
fn menu_screen() {
    let game = game();
    let cmds = game.render_commands();
    assert_eq!(cmds.len(), 3);
    expect_text(&cmds[0], "* PONG *", 18000, 18000, 60);
    expect_text(&cmds[1], "Press SPACE to start", 13500, 25000, 30);
    expect_text(&cmds[2], "Or Q to quit", 25000, 31000, 20);
}

#[test]
fn playing_screen() {
    let mut game = game();
    game.phase = Phase::Playing;
    game.player1.points = 10;
    game.player2.points = 3;
    let cmds = game.render_commands();
    assert_eq!(cmds.len(), 5);
    expect_text(&cmds[0], "10", 13500, 4000, 50);
    expect_text(&cmds[1], "3", 46000, 4000, 50);
    expect_sprite(&cmds[2], SpriteId::Player1, 1600, 19000);
    expect_sprite(&cmds[3], SpriteId::Player2, 60800, 19000);
    expect_sprite(&cmds[4], SpriteId::Ball, 31200, 23200);
}

#[test]
fn end_screen() {
    let mut game = game();
    game.phase = Phase::Ended;
    game.end_text = String::from("Player 2 wins");
    let cmds = game.render_commands();
    assert_eq!(cmds.len(), 3);
    expect_text(&cmds[0], "Player 2 wins", 15500, 18000, 40);
    expect_text(&cmds[1], "Press R to restart", 15000, 25000, 30);
    expect_text(&cmds[2], "Or M to go to Menu", 20500, 31500, 20);
}
