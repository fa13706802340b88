//! What a frame draws, described as data: the menu, the scores and sprites
//! of an active game, or the end screen.

use vstd::prelude::*;
use vstd::string::StringExecFns;
use crate::sim::{GameState, Phase};

verus! {

/// Which of the three sprites a draw command shows.
#[derive(Clone, Copy, PartialEq, Eq, Structural, Debug)]
pub enum SpriteId {
    Player1,
    Player2,
    Ball,
}

/// One drawing instruction, in field coordinates (hundredths of a pixel).
/// `size` is the font size of a piece of text, in pixels.
#[derive(Clone, PartialEq, Eq, Debug)]
pub enum DrawCmd {
    Text { content: String, x: i64, y: i64, size: u32 },
    Sprite { sprite: SpriteId, x: i64, y: i64 },
}

/// Mathematical model of a [`DrawCmd`].
pub enum DrawCmdV {
    Text { content: Seq<char>, x: int, y: int, size: int },
    Sprite { sprite: SpriteId, x: int, y: int },
}

impl View for DrawCmd {
    type V = DrawCmdV;

    open spec fn view(&self) -> DrawCmdV {
        match self {
            DrawCmd::Text { content, x, y, size } => DrawCmdV::Text {
                content: content@,
                x: *x as int,
                y: *y as int,
                size: *size as int,
            },
            DrawCmd::Sprite { sprite, x, y } => DrawCmdV::Sprite {
                sprite: *sprite,
                x: *x as int,
                y: *y as int,
            },
        }
    }
}

/// The decimal digit `d` as a character.
pub open spec fn digit_char(d: int) -> char {
    if d == 0 {
        '0'
    } else if d == 1 {
        '1'
    } else if d == 2 {
        '2'
    } else if d == 3 {
        '3'
    } else if d == 4 {
        '4'
    } else if d == 5 {
        '5'
    } else if d == 6 {
        '6'
    } else if d == 7 {
        '7'
    } else if d == 8 {
        '8'
    } else {
        '9'
    }
}

/// The usual decimal rendering of a non-negative number: most significant
/// digit first, no leading zeroes (a single zero for zero itself).
pub open spec fn spec_decimal(n: int) -> Seq<char>
    recommends
        n >= 0,
    decreases n,
{
    if n < 10 {
        seq![digit_char(n)]
    } else {
        spec_decimal(n / 10).push(digit_char(n % 10))
    }
}

/// The decimal digit `d` as a one-character string.
fn digit_str(d: u32) -> (s: &'static str)
    requires
        d < 10,
    ensures
        s@ == seq![digit_char(d as int)],
{
    proof {
        reveal_strlit("0");
        reveal_strlit("1");
        reveal_strlit("2");
        reveal_strlit("3");
        reveal_strlit("4");
        reveal_strlit("5");
        reveal_strlit("6");
        reveal_strlit("7");
        reveal_strlit("8");
        reveal_strlit("9");
    }
    let s = match d {
        0 => "0",
        1 => "1",
        2 => "2",
        3 => "3",
        4 => "4",
        5 => "5",
        6 => "6",
        7 => "7",
        8 => "8",
        _ => "9",
    };
    proof {
        assert(s@ =~= seq![digit_char(d as int)]);
    }
    s
}

/// Renders a number in decimal, most significant digit first.
pub fn decimal_string(n: u32) -> (s: String)
    ensures
        s@ == spec_decimal(n as int),
    decreases n,
{
    if n < 10 {
        String::from_str(digit_str(n))
    } else {
        let mut s = decimal_string(n / 10);
        s.append(digit_str(n % 10));
        proof {
            assert(s@ =~= spec_decimal(n as int));
        }
        s
    }
}

impl GameState {
    /// Describes what this frame should draw, top to bottom in the order
    /// the commands must be issued. The menu and the end screen are three
    /// lines of text; an active game is the two scores followed by the
    /// three sprites at their current positions.
    pub fn render_commands(&self) -> (cmds: Vec<DrawCmd>)
        ensures
            self@.phase == Phase::Menu ==> cmds@.len() == 3 && cmds@[0]@ == (DrawCmdV::Text {
                content: "* PONG *"@,
                x: 18000,
                y: 18000,
                size: 60,
            }) && cmds@[1]@ == (DrawCmdV::Text {
                content: "Press SPACE to start"@,
                x: 13500,
                y: 25000,
                size: 30,
            }) && cmds@[2]@ == (DrawCmdV::Text {
                content: "Or Q to quit"@,
                x: 25000,
                y: 31000,
                size: 20,
            }),
            self@.phase == Phase::Ended ==> cmds@.len() == 3 && cmds@[0]@ == (DrawCmdV::Text {
                content: self@.end_text,
                x: 15500,
                y: 18000,
                size: 40,
            }) && cmds@[1]@ == (DrawCmdV::Text {
                content: "Press R to restart"@,
                x: 15000,
                y: 25000,
                size: 30,
            }) && cmds@[2]@ == (DrawCmdV::Text {
                content: "Or M to go to Menu"@,
                x: 20500,
                y: 31500,
                size: 20,
            }),
            self@.phase == Phase::Playing ==> cmds@.len() == 5 && cmds@[0]@ == (DrawCmdV::Text {
                content: spec_decimal(self@.player1.points),
                x: 13500,
                y: 4000,
                size: 50,
            }) && cmds@[1]@ == (DrawCmdV::Text {
                content: spec_decimal(self@.player2.points),
                x: 46000,
                y: 4000,
                size: 50,
            }) && cmds@[2]@ == (DrawCmdV::Sprite {
                sprite: SpriteId::Player1,
                x: self@.player1.position.x,
                y: self@.player1.position.y,
            }) && cmds@[3]@ == (DrawCmdV::Sprite {
                sprite: SpriteId::Player2,
                x: self@.player2.position.x,
                y: self@.player2.position.y,
            }) && cmds@[4]@ == (DrawCmdV::Sprite {
                sprite: SpriteId::Ball,
                x: self@.ball.position.x,
                y: self@.ball.position.y,
            }),
    {
        let mut cmds: Vec<DrawCmd> = Vec::new();
        match self.phase {
            Phase::Menu => {
                cmds.push(
                    DrawCmd::Text {
                        content: String::from_str("* PONG *"),
                        x: 18000,
                        y: 18000,
                        size: 60,
                    },
                );
                cmds.push(
                    DrawCmd::Text {
                        content: String::from_str("Press SPACE to start"),
                        x: 13500,
                        y: 25000,
                        size: 30,
                    },
                );
                cmds.push(
                    DrawCmd::Text {
                        content: String::from_str("Or Q to quit"),
                        x: 25000,
                        y: 31000,
                        size: 20,
                    },
                );
            },
            Phase::Ended => {
                cmds.push(
                    DrawCmd::Text { content: self.end_text.clone(), x: 15500, y: 18000, size: 40 },
                );
                cmds.push(
                    DrawCmd::Text {
                        content: String::from_str("Press R to restart"),
                        x: 15000,
                        y: 25000,
                        size: 30,
                    },
                );
                cmds.push(
                    DrawCmd::Text {
                        content: String::from_str("Or M to go to Menu"),
                        x: 20500,
                        y: 31500,
                        size: 20,
                    },
                );
            },
            Phase::Playing => {
                cmds.push(
                    DrawCmd::Text {
                        content: decimal_string(self.player1.points),
                        x: 13500,
                        y: 4000,
                        size: 50,
                    },
                );
                cmds.push(
                    DrawCmd::Text {
                        content: decimal_string(self.player2.points),
                        x: 46000,
                        y: 4000,
                        size: 50,
                    },
                );
                cmds.push(
                    DrawCmd::Sprite {
                        sprite: SpriteId::Player1,
                        x: self.player1.position.x,
                        y: self.player1.position.y,
                    },
                );
                cmds.push(
                    DrawCmd::Sprite {
                        sprite: SpriteId::Player2,
                        x: self.player2.position.x,
                        y: self.player2.position.y,
                    },
                );
                cmds.push(
                    DrawCmd::Sprite {
                        sprite: SpriteId::Ball,
                        x: self.ball.position.x,
                        y: self.ball.position.y,
                    },
                );
            },
        }
        cmds
    }
}

} // verus!
