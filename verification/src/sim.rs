//! The game simulation: the menu / play / end state machine and the
//! per-frame physics step.

use vstd::prelude::*;
use vstd::string::StringExecFns;
use crate::entity::{Entity, EntityV, Vec2, Vec2V, entities_intersect};
use crate::num::{clamp_coord, div_trunc, lemma_tdiv_bounded, sat, sign, signum, tdiv};
use crate::{
    BALL_ACC,
    BALL_SPEED,
    COORD_MAX,
    FIELD_HEIGHT,
    FIELD_WIDTH,
    PADDLE_INSET,
    PADDLE_SPEED,
    PADDLE_SPIN,
    WIN_SCORE,
};

verus! {

/// Top-level mode of the simulation.
#[derive(Clone, Copy, PartialEq, Eq, Structural, Debug)]
pub enum Phase {
    Menu,
    Playing,
    Ended,
}

/// Snapshot of the player input polled once per frame. The first four are
/// discrete key-press events, the last four are key-held states.
#[derive(Clone, Copy, PartialEq, Eq, Structural, Debug)]
pub struct Input {
    pub start: bool,
    pub restart: bool,
    pub menu: bool,
    pub quit: bool,
    pub p1_up: bool,
    pub p1_down: bool,
    pub p2_up: bool,
    pub p2_down: bool,
}

impl Input {
    /// A frame on which no key is pressed or held.
    pub fn none() -> (i: Input)
        ensures
            i == (Input {
                start: false,
                restart: false,
                menu: false,
                quit: false,
                p1_up: false,
                p1_down: false,
                p2_up: false,
                p2_down: false,
            }),
    {
        Input {
            start: false,
            restart: false,
            menu: false,
            quit: false,
            p1_up: false,
            p1_down: false,
            p2_up: false,
            p2_down: false,
        }
    }
}

/// What a frame asks the surrounding program to do: quit the application,
/// and play the paddle-hit sound (fire and forget).
#[derive(Clone, Copy, PartialEq, Eq, Structural, Debug)]
pub struct FrameEvents {
    pub quit: bool,
    pub hit_sound: bool,
}

/// Mathematical model of a [`GameState`].
pub struct StateV {
    pub player1: EntityV,
    pub player2: EntityV,
    pub ball: EntityV,
    pub phase: Phase,
    pub end_text: Seq<char>,
}

/// The whole simulation: both paddles, the ball, and the current phase.
pub struct GameState {
    pub player1: Entity,
    pub player2: Entity,
    pub ball: Entity,
    pub phase: Phase,
    pub end_text: String,
}

impl View for GameState {
    type V = StateV;

    open spec fn view(&self) -> StateV {
        StateV {
            player1: self.player1@,
            player2: self.player2@,
            ball: self.ball@,
            phase: self.phase,
            end_text: self.end_text@,
        }
    }
}

/// Bounds shared by every entity: a positive size no larger than the field,
/// and coordinates and velocities within `COORD_MAX`.
pub open spec fn entity_bounded(e: EntityV) -> bool {
    &&& 1 <= e.width <= FIELD_WIDTH
    &&& 1 <= e.height <= FIELD_HEIGHT
    &&& -COORD_MAX <= e.position.x <= COORD_MAX
    &&& -COORD_MAX <= e.position.y <= COORD_MAX
    &&& -COORD_MAX <= e.velocity.x <= COORD_MAX
    &&& -COORD_MAX <= e.velocity.y <= COORD_MAX
}

/// A well-formed paddle: bounded, at rest (paddles are moved directly by
/// input), fully inside the field vertically, and never past the winning
/// score.
pub open spec fn paddle_wf(e: EntityV) -> bool {
    &&& entity_bounded(e)
    &&& e.velocity.x == 0
    &&& e.velocity.y == 0
    &&& 0 <= e.position.y <= FIELD_HEIGHT - e.height
    &&& e.points <= WIN_SCORE
}

/// A well-formed ball: bounded, horizontally inside the field (a frame that
/// carries it out immediately scores and recentres it), narrow enough that
/// one frame of travel from the centre cannot reach a side edge, and with
/// an unused score of zero.
pub open spec fn ball_wf(e: EntityV) -> bool {
    &&& entity_bounded(e)
    &&& 0 <= e.position.x <= FIELD_WIDTH
    &&& e.width + 2 * BALL_SPEED <= FIELD_WIDTH
    &&& e.points == 0
}

impl StateV {
    /// Well-formedness of the whole simulation. `update` preserves it; in
    /// particular, while the game is being played neither score has reached
    /// the winning score yet (the frame on which it does ends the game).
    pub open spec fn wf(self) -> bool {
        &&& paddle_wf(self.player1)
        &&& paddle_wf(self.player2)
        &&& ball_wf(self.ball)
        &&& (self.phase == Phase::Playing ==> self.player1.points < WIN_SCORE
            && self.player2.points < WIN_SCORE)
    }
}

/// Vertical centre of the starting position of an entity of this height.
pub open spec fn start_y(height: int) -> int {
    (FIELD_HEIGHT - height) / 2
}

/// Starting x of the left paddle.
pub open spec fn p1_start_x() -> int {
    PADDLE_INSET as int
}

/// Starting x of the right paddle.
pub open spec fn p2_start_x(width: int) -> int {
    FIELD_WIDTH - width - PADDLE_INSET
}

/// Starting x of the ball: horizontally centred.
pub open spec fn ball_start_x(width: int) -> int {
    FIELD_WIDTH / 2 - width / 2
}

/// Starting y of the ball: vertically centred.
pub open spec fn ball_start_y(height: int) -> int {
    FIELD_HEIGHT / 2 - height / 2
}

/// An entity put back at position `(x, y)` with velocity `(vx, vy)`.
pub open spec fn placed(e: EntityV, x: int, y: int, vx: int, vy: int) -> EntityV {
    EntityV {
        position: Vec2V { x, y },
        velocity: Vec2V { x: vx, y: vy },
        width: e.width,
        height: e.height,
        points: e.points,
    }
}

/// Every position and the ball's velocity put back to its starting value;
/// scores, sizes, phase and end text are untouched.
pub open spec fn spec_reset(v: StateV) -> StateV {
    StateV {
        player1: placed(v.player1, p1_start_x(), start_y(v.player1.height), 0, 0),
        player2: placed(
            v.player2,
            p2_start_x(v.player2.width),
            start_y(v.player2.height),
            0,
            0,
        ),
        ball: placed(
            v.ball,
            ball_start_x(v.ball.width),
            ball_start_y(v.ball.height),
            -BALL_SPEED as int,
            0,
        ),
        phase: v.phase,
        end_text: v.end_text,
    }
}

/// An entity with its score put to `points`.
pub open spec fn with_score(e: EntityV, points: int) -> EntityV {
    EntityV {
        position: e.position,
        velocity: e.velocity,
        width: e.width,
        height: e.height,
        points,
    }
}

/// The discrete state transitions driven by key-press events, and whether
/// the frame asks the application to quit. In the menu, starting takes
/// precedence over quitting; on the end screen, restarting takes precedence
/// over returning to the menu. Starting keeps the scores; restarting resets
/// them to zero.
pub open spec fn spec_transition(v: StateV, i: Input) -> (StateV, bool) {
    match v.phase {
        Phase::Menu => if i.start {
            (spec_reset(StateV { phase: Phase::Playing, ..v }), false)
        } else if i.quit {
            (v, true)
        } else {
            (v, false)
        },
        Phase::Ended => if i.restart {
            let r = spec_reset(StateV { phase: Phase::Playing, ..v });
            (
                StateV {
                    player1: with_score(r.player1, 0),
                    player2: with_score(r.player2, 0),
                    ..r
                },
                false,
            )
        } else if i.menu {
            (StateV { phase: Phase::Menu, ..v }, false)
        } else {
            (v, false)
        },
        Phase::Playing => (v, false),
    }
}

/// A paddle's y after one frame of held keys: moving up and moving down are
/// applied independently, each clamped to keep the paddle inside the field.
pub open spec fn paddle_y_after(y: int, height: int, up: bool, down: bool) -> int {
    let top = if up {
        if y - PADDLE_SPEED < 0 {
            0
        } else {
            y - PADDLE_SPEED
        }
    } else {
        y
    };
    let limit = FIELD_HEIGHT - height;
    if down {
        if top + PADDLE_SPEED > limit {
            limit
        } else {
            top + PADDLE_SPEED
        }
    } else {
        top
    }
}

/// A paddle after one frame of held keys.
pub open spec fn paddle_moved(e: EntityV, up: bool, down: bool) -> EntityV {
    EntityV {
        position: Vec2V { x: e.position.x, y: paddle_y_after(e.position.y, e.height, up, down) },
        velocity: e.velocity,
        width: e.width,
        height: e.height,
        points: e.points,
    }
}

/// The ball after one Euler step: position plus velocity, the y coordinate
/// saturated at the coordinate bound.
pub open spec fn ball_integrated(e: EntityV) -> EntityV {
    EntityV {
        position: Vec2V {
            x: e.position.x + e.velocity.x,
            y: sat(e.position.y + e.velocity.y),
        },
        velocity: e.velocity,
        width: e.width,
        height: e.height,
        points: e.points,
    }
}

/// Vertical centre of an entity, on the fixed-point grid.
pub open spec fn centre_y(e: EntityV) -> int {
    e.position.y + e.height / 2
}

/// Horizontal velocity after a paddle hit: sped up by `BALL_ACC` away from
/// zero, then reversed.
pub open spec fn hit_vx(vx: int) -> int {
    sat(-(vx + BALL_ACC * sign(vx)))
}

/// Vertical velocity after a hit against `paddle`: a deflection
/// proportional to how far from the paddle's centre the ball struck.
/// Hitting below the centre deflects downward, above it upward.
pub open spec fn hit_vy(vy: int, ball: EntityV, paddle: EntityV) -> int {
    sat(vy + tdiv(PADDLE_SPIN * (centre_y(ball) - centre_y(paddle)), paddle.height))
}

/// The ball after bouncing off `paddle`.
pub open spec fn ball_after_hit(ball: EntityV, paddle: EntityV) -> EntityV {
    EntityV {
        position: ball.position,
        velocity: Vec2V { x: hit_vx(ball.velocity.x), y: hit_vy(ball.velocity.y, ball, paddle) },
        width: ball.width,
        height: ball.height,
        points: ball.points,
    }
}

/// The ball touches or has passed the top or bottom wall.
pub open spec fn at_wall(e: EntityV) -> bool {
    e.position.y <= 0 || e.position.y + e.height >= FIELD_HEIGHT
}

/// The ball with its vertical velocity reflected.
pub open spec fn reflected(e: EntityV) -> EntityV {
    EntityV {
        position: e.position,
        velocity: Vec2V { x: e.velocity.x, y: -e.velocity.y },
        width: e.width,
        height: e.height,
        points: e.points,
    }
}

/// A point for `scorer` (1 or 2): every position and the ball's velocity
/// goes back to its starting value, and the scorer's score grows by one.
pub open spec fn spec_score(v: StateV, scorer: int) -> StateV {
    let r = spec_reset(v);
    if scorer == 1 {
        StateV { player1: with_score(r.player1, r.player1.points + 1), ..r }
    } else {
        StateV { player2: with_score(r.player2, r.player2.points + 1), ..r }
    }
}

/// The end-of-frame win check: a score of exactly `WIN_SCORE` ends the
/// game, player 1 checked first.
pub open spec fn spec_win_check(v: StateV) -> StateV {
    if v.player1.points == WIN_SCORE as int {
        StateV { phase: Phase::Ended, end_text: "Player 1 wins"@, ..v }
    } else if v.player2.points == WIN_SCORE as int {
        StateV { phase: Phase::Ended, end_text: "Player 2 wins"@, ..v }
    } else {
        v
    }
}

/// One frame of physics, run only while playing: paddle movement, ball
/// integration, paddle collision (player 1 tested first, first match wins),
/// wall reflection, scoring, then the win check. The second component tells
/// whether a paddle was hit this frame.
pub open spec fn spec_physics(v: StateV, i: Input) -> (StateV, bool) {
    let p1 = paddle_moved(v.player1, i.p1_up, i.p1_down);
    let p2 = paddle_moved(v.player2, i.p2_up, i.p2_down);
    let b1 = ball_integrated(v.ball);
    let (b2, hit) = if entities_intersect(b1, p1) {
        (ball_after_hit(b1, p1), true)
    } else if entities_intersect(b1, p2) {
        (ball_after_hit(b1, p2), true)
    } else {
        (b1, false)
    };
    let b3 = if at_wall(b2) {
        reflected(b2)
    } else {
        b2
    };
    let s1 = StateV { player1: p1, player2: p2, ball: b3, phase: v.phase, end_text: v.end_text };
    let s2 = if s1.ball.position.x < 0 {
        spec_score(s1, 2)
    } else {
        s1
    };
    let s3 = if s2.ball.position.x > FIELD_WIDTH {
        spec_score(s2, 1)
    } else {
        s2
    };
    (spec_win_check(s3), hit)
}

/// One whole frame: the key-driven transitions, then — when the resulting
/// phase is `Playing`, including the very frame the game was started or
/// restarted on — one step of physics.
pub open spec fn spec_update(v: StateV, i: Input) -> (StateV, FrameEvents) {
    let (v1, quit) = spec_transition(v, i);
    if v1.phase == Phase::Playing {
        let (v2, hit) = spec_physics(v1, i);
        (v2, FrameEvents { quit, hit_sound: hit })
    } else {
        (v1, FrameEvents { quit, hit_sound: false })
    }
}

/// The state the simulation is constructed in: everything at its starting
/// place, the ball heading left, the menu showing.
pub open spec fn spec_initial(p1w: int, p1h: int, p2w: int, p2h: int, bw: int, bh: int) -> StateV {
    StateV {
        player1: EntityV {
            position: Vec2V { x: p1_start_x(), y: start_y(p1h) },
            velocity: Vec2V { x: 0, y: 0 },
            width: p1w,
            height: p1h,
            points: 0,
        },
        player2: EntityV {
            position: Vec2V { x: p2_start_x(p2w), y: start_y(p2h) },
            velocity: Vec2V { x: 0, y: 0 },
            width: p2w,
            height: p2h,
            points: 0,
        },
        ball: EntityV {
            position: Vec2V { x: ball_start_x(bw), y: ball_start_y(bh) },
            velocity: Vec2V { x: -BALL_SPEED as int, y: 0 },
            width: bw,
            height: bh,
            points: 0,
        },
        phase: Phase::Menu,
        end_text: Seq::<char>::empty(),
    }
}

/// The coming integration step cannot carry the ball past a side edge.
pub open spec fn no_score_next(v: StateV) -> bool {
    0 <= v.ball.position.x + v.ball.velocity.x <= FIELD_WIDTH
}

/// A paddle's starting y keeps it fully inside the field.
pub proof fn lemma_start_y_bounds(h: int)
    requires
        1 <= h <= FIELD_HEIGHT,
    ensures
        0 <= start_y(h) <= FIELD_HEIGHT - h,
{
    let d = FIELD_HEIGHT - h;
    vstd::arithmetic::div_mod::lemma_div_pos_is_pos(d, 2);
    vstd::arithmetic::div_mod::lemma_div_is_ordered_by_denominator(d, 1, 2);
    vstd::arithmetic::div_mod::lemma_div_basics(d);
}

/// The ball's starting place is inside the field, more than one frame of
/// initial travel away from either side edge.
pub proof fn lemma_ball_start_bounds(w: int, h: int)
    requires
        1 <= w,
        w + 2 * BALL_SPEED <= FIELD_WIDTH,
        1 <= h <= FIELD_HEIGHT,
    ensures
        BALL_SPEED <= ball_start_x(w) <= FIELD_WIDTH / 2,
        0 <= ball_start_y(h) <= FIELD_HEIGHT / 2,
{
    vstd::arithmetic::div_mod::lemma_div_pos_is_pos(w, 2);
    vstd::arithmetic::div_mod::lemma_div_is_ordered(w, FIELD_WIDTH - 2 * BALL_SPEED, 2);
    vstd::arithmetic::div_mod::lemma_div_pos_is_pos(h, 2);
    vstd::arithmetic::div_mod::lemma_div_is_ordered(h, FIELD_HEIGHT as int, 2);
}

/// Clamped paddle movement keeps a well-formed paddle well formed.
pub proof fn lemma_paddle_moved_wf(e: EntityV, up: bool, down: bool)
    requires
        paddle_wf(e),
    ensures
        paddle_wf(paddle_moved(e, up, down)),
{
}

/// Putting everything back to its starting place keeps the entities well
/// formed, leaves phase and scores alone, and leaves the ball where the
/// coming frame cannot score.
pub proof fn lemma_reset_wf(v: StateV)
    requires
        1 <= v.player1.width <= FIELD_WIDTH,
        1 <= v.player1.height <= FIELD_HEIGHT,
        1 <= v.player2.width <= FIELD_WIDTH,
        1 <= v.player2.height <= FIELD_HEIGHT,
        1 <= v.ball.width,
        v.ball.width + 2 * BALL_SPEED <= FIELD_WIDTH,
        1 <= v.ball.height <= FIELD_HEIGHT,
        v.ball.points == 0,
        v.player1.points <= WIN_SCORE,
        v.player2.points <= WIN_SCORE,
    ensures
        paddle_wf(spec_reset(v).player1),
        paddle_wf(spec_reset(v).player2),
        ball_wf(spec_reset(v).ball),
        no_score_next(spec_reset(v)),
        spec_reset(v).phase == v.phase,
        spec_reset(v).end_text == v.end_text,
        spec_reset(v).player1.points == v.player1.points,
        spec_reset(v).player2.points == v.player2.points,
{
    lemma_start_y_bounds(v.player1.height);
    lemma_start_y_bounds(v.player2.height);
    lemma_ball_start_bounds(v.ball.width, v.ball.height);
}

/// What the key-driven transitions guarantee: each entity stays well
/// formed; when they leave the phase off `Playing` the whole state is well
/// formed; and on a frame that enters `Playing` with a score already at the
/// winning mark, the ball has just been recentred, so that frame cannot
/// score again.
pub proof fn lemma_transition_shape(v: StateV, i: Input)
    ensures
        ({
            let (v1, _) = spec_transition(v, i);
            v.wf() ==> {
                &&& paddle_wf(v1.player1)
                &&& paddle_wf(v1.player2)
                &&& ball_wf(v1.ball)
                &&& (v1.phase != Phase::Playing ==> v1.wf())
                &&& (v1.phase == Phase::Playing ==> v1.player1.points <= WIN_SCORE
                    && v1.player2.points <= WIN_SCORE)
                &&& (v1.phase == Phase::Playing && (v1.player1.points == WIN_SCORE
                    || v1.player2.points == WIN_SCORE) ==> no_score_next(v1))
            }
        }),
{
    if v.wf() {
        match v.phase {
            Phase::Menu => {
                if i.start {
                    lemma_reset_wf(StateV { phase: Phase::Playing, ..v });
                }
            },
            Phase::Ended => {
                if i.restart {
                    lemma_reset_wf(StateV { phase: Phase::Playing, ..v });
                }
            },
            Phase::Playing => {
            },
        }
    }
}

/// One step of physics from well-formed components yields a well-formed
/// state, provided a score already at the winning mark can only occur with
/// a freshly recentred ball.
pub proof fn lemma_physics_wf(v: StateV, i: Input)
    requires
        paddle_wf(v.player1),
        paddle_wf(v.player2),
        ball_wf(v.ball),
        v.phase == Phase::Playing,
        v.player1.points <= WIN_SCORE,
        v.player2.points <= WIN_SCORE,
        (v.player1.points == WIN_SCORE || v.player2.points == WIN_SCORE) ==> no_score_next(v),
    ensures
        spec_physics(v, i).0.wf(),
{
    lemma_paddle_moved_wf(v.player1, i.p1_up, i.p1_down);
    lemma_paddle_moved_wf(v.player2, i.p2_up, i.p2_down);
    let p1 = paddle_moved(v.player1, i.p1_up, i.p1_down);
    let p2 = paddle_moved(v.player2, i.p2_up, i.p2_down);
    let b1 = ball_integrated(v.ball);
    let (b2, hit) = if entities_intersect(b1, p1) {
        (ball_after_hit(b1, p1), true)
    } else if entities_intersect(b1, p2) {
        (ball_after_hit(b1, p2), true)
    } else {
        (b1, false)
    };
    let b3 = if at_wall(b2) {
        reflected(b2)
    } else {
        b2
    };
    let s1 = StateV { player1: p1, player2: p2, ball: b3, phase: v.phase, end_text: v.end_text };
    assert(b3.position == b1.position);
    if s1.ball.position.x < 0 || s1.ball.position.x > FIELD_WIDTH {
        // The ball left the field, so this frame was no fresh start, and
        // both scores are still below the winning mark.
        assert(v.player1.points < WIN_SCORE && v.player2.points < WIN_SCORE);
        lemma_reset_wf(s1);
    }
    let s2 = if s1.ball.position.x < 0 {
        spec_score(s1, 2)
    } else {
        s1
    };
    if s2.ball.position.x > FIELD_WIDTH {
        lemma_reset_wf(s2);
    }
    let s3 = if s2.ball.position.x > FIELD_WIDTH {
        spec_score(s2, 1)
    } else {
        s2
    };
    assert(spec_physics(v, i).0 == spec_win_check(s3));
}

impl GameState {
    /// Builds the simulation from the pixel dimensions of the three visual
    /// assets, already scaled to hundredths of a pixel: paddles at their
    /// horizontal insets and vertically centred, the ball centred and
    /// heading left, scores at zero, menu showing.
    pub fn new(
        p1_width: i64,
        p1_height: i64,
        p2_width: i64,
        p2_height: i64,
        ball_width: i64,
        ball_height: i64,
    ) -> (s: GameState)
        requires
            1 <= p1_width <= FIELD_WIDTH,
            1 <= p1_height <= FIELD_HEIGHT,
            1 <= p2_width <= FIELD_WIDTH,
            1 <= p2_height <= FIELD_HEIGHT,
            1 <= ball_width,
            ball_width + 2 * BALL_SPEED <= FIELD_WIDTH,
            1 <= ball_height <= FIELD_HEIGHT,
        ensures
            s@ == spec_initial(
                p1_width as int,
                p1_height as int,
                p2_width as int,
                p2_height as int,
                ball_width as int,
                ball_height as int,
            ),
            s@.wf(),
    {
        proof {
            lemma_start_y_bounds(p1_height as int);
            lemma_start_y_bounds(p2_height as int);
            lemma_ball_start_bounds(ball_width as int, ball_height as int);
        }
        let player1 = Entity::with_points(
            Vec2 { x: PADDLE_INSET, y: (FIELD_HEIGHT - p1_height) / 2 },
            Vec2 { x: 0, y: 0 },
            p1_width,
            p1_height,
            0,
        );
        let player2 = Entity::with_points(
            Vec2 { x: FIELD_WIDTH - p2_width - PADDLE_INSET, y: (FIELD_HEIGHT - p2_height) / 2 },
            Vec2 { x: 0, y: 0 },
            p2_width,
            p2_height,
            0,
        );
        let ball = Entity::with_velocity(
            Vec2 { x: FIELD_WIDTH / 2 - ball_width / 2, y: FIELD_HEIGHT / 2 - ball_height / 2 },
            Vec2 { x: -BALL_SPEED, y: 0 },
            ball_width,
            ball_height,
            0,
        );
        GameState { player1, player2, ball, phase: Phase::Menu, end_text: String::new() }
    }

    /// Puts every position and the ball's velocity back to its starting
    /// value; scores, sizes, phase and end text are untouched.
    fn reset_positions(&mut self)
        requires
            1 <= old(self)@.player1.height <= FIELD_HEIGHT,
            1 <= old(self)@.player2.height <= FIELD_HEIGHT,
            1 <= old(self)@.player2.width <= FIELD_WIDTH,
            1 <= old(self)@.ball.width <= FIELD_WIDTH,
            1 <= old(self)@.ball.height <= FIELD_HEIGHT,
        ensures
            final(self)@ == spec_reset(old(self)@),
    {
        self.player1.position.x = PADDLE_INSET;
        self.player1.position.y = (FIELD_HEIGHT - self.player1.height) / 2;
        self.player1.velocity.x = 0;
        self.player1.velocity.y = 0;
        self.player2.position.x = FIELD_WIDTH - self.player2.width - PADDLE_INSET;
        self.player2.position.y = (FIELD_HEIGHT - self.player2.height) / 2;
        self.player2.velocity.x = 0;
        self.player2.velocity.y = 0;
        self.ball.position.x = FIELD_WIDTH / 2 - self.ball.width / 2;
        self.ball.position.y = FIELD_HEIGHT / 2 - self.ball.height / 2;
        self.ball.velocity.x = -BALL_SPEED;
        self.ball.velocity.y = 0;
    }

    /// One frame of the simulation. Applies the key-driven transitions,
    /// then — while playing — one physics step, and reports the events the
    /// surrounding program should carry out: quitting, and playing the
    /// paddle-hit sound.
    #[verifier::rlimit(100)]
    pub fn update(&mut self, input: &Input) -> (ev: FrameEvents)
        requires
            old(self)@.wf(),
        ensures
            final(self)@.wf(),
            (final(self)@, ev) == spec_update(old(self)@, *input),
    {
        let ghost v0: StateV = self@;
        let mut quit = false;
        match self.phase {
            Phase::Menu => {
                if input.start {
                    self.phase = Phase::Playing;
                    self.reset_positions();
                } else if input.quit {
                    quit = true;
                }
            },
            Phase::Ended => {
                if input.restart {
                    self.phase = Phase::Playing;
                    self.reset_positions();
                    self.player1.points = 0;
                    self.player2.points = 0;
                } else if input.menu {
                    self.phase = Phase::Menu;
                }
            },
            Phase::Playing => {
            },
        }
        let ghost v1: StateV = self@;
        proof {
            assert((v1, quit) == spec_transition(v0, *input));
            lemma_transition_shape(v0, *input);
        }
        let mut hit = false;
        if self.phase == Phase::Playing {
            paddle_step(&mut self.player1, input.p1_up, input.p1_down);
            paddle_step(&mut self.player2, input.p2_up, input.p2_down);
            let ghost p1m = paddle_moved(v1.player1, input.p1_up, input.p1_down);
            let ghost p2m = paddle_moved(v1.player2, input.p2_up, input.p2_down);
            proof {
                lemma_paddle_moved_wf(v1.player1, input.p1_up, input.p1_down);
                lemma_paddle_moved_wf(v1.player2, input.p2_up, input.p2_down);
            }
            let vx: i64 = self.ball.velocity.x;
            let vy: i64 = self.ball.velocity.y;
            self.ball.position.x = self.ball.position.x + vx;
            self.ball.position.y = clamp_coord(self.ball.position.y + vy);
            let ghost b1 = self.ball@;
            assert(b1 == ball_integrated(v1.ball));
            let ball_box = self.ball.bounds();
            let p1_box = self.player1.bounds();
            let p2_box = self.player2.bounds();
            if ball_box.intersects(&p1_box) {
                hit = true;
                apply_hit(&mut self.ball, &self.player1);
            } else if ball_box.intersects(&p2_box) {
                hit = true;
                apply_hit(&mut self.ball, &self.player2);
            }
            let ghost b2 = self.ball@;
            proof {
                if entities_intersect(b1, p1m) {
                    assert(b2 == ball_after_hit(b1, p1m) && hit);
                } else if entities_intersect(b1, p2m) {
                    assert(b2 == ball_after_hit(b1, p2m) && hit);
                } else {
                    assert(b2 == b1 && !hit);
                }
            }
            if self.ball.position.y <= 0 || self.ball.position.y + self.ball.height
                >= FIELD_HEIGHT {
                self.ball.velocity.y = -self.ball.velocity.y;
            }
            let ghost b3 = self.ball@;
            assert(b3 == if at_wall(b2) {
                reflected(b2)
            } else {
                b2
            });
            let ghost s1 = StateV {
                player1: p1m,
                player2: p2m,
                ball: b3,
                phase: v1.phase,
                end_text: v1.end_text,
            };
            assert(self@ == s1);
            if self.ball.position.x < 0 {
                self.reset_positions();
                self.player2.points = self.player2.points + 1;
            }
            let ghost s2 = if s1.ball.position.x < 0 {
                spec_score(s1, 2)
            } else {
                s1
            };
            assert(self@ == s2);
            if self.ball.position.x > FIELD_WIDTH {
                self.reset_positions();
                self.player1.points = self.player1.points + 1;
            }
            let ghost s3 = if s2.ball.position.x > FIELD_WIDTH {
                spec_score(s2, 1)
            } else {
                s2
            };
            assert(self@ == s3);
            if self.player1.points == WIN_SCORE {
                self.phase = Phase::Ended;
                self.end_text = String::from_str("Player 1 wins");
            } else if self.player2.points == WIN_SCORE {
                self.phase = Phase::Ended;
                self.end_text = String::from_str("Player 2 wins");
            }
            proof {
                assert(self@ == spec_win_check(s3));
                assert((self@, hit) == spec_physics(v1, *input));
                lemma_physics_wf(v1, *input);
            }
        }
        FrameEvents { quit, hit_sound: hit }
    }
}

/// One frame of held keys for one paddle: up then down, each clamped so
/// the paddle stays inside the field.
fn paddle_step(e: &mut Entity, up: bool, down: bool)
    requires
        1 <= old(e)@.height <= FIELD_HEIGHT,
        0 <= old(e)@.position.y <= FIELD_HEIGHT - old(e)@.height,
    ensures
        final(e)@ == paddle_moved(old(e)@, up, down),
{
    if up {
        if e.position.y - PADDLE_SPEED < 0 {
            e.position.y = 0;
        } else {
            e.position.y = e.position.y - PADDLE_SPEED;
        }
    }
    if down {
        let limit: i64 = FIELD_HEIGHT - e.height;
        if e.position.y + PADDLE_SPEED > limit {
            e.position.y = limit;
        } else {
            e.position.y = e.position.y + PADDLE_SPEED;
        }
    }
}

/// The ball bounces off `paddle`: its horizontal velocity speeds up and
/// reverses, and the hit position adds vertical spin.
fn apply_hit(ball: &mut Entity, paddle: &Entity)
    requires
        1 <= paddle@.width <= FIELD_WIDTH,
        1 <= paddle@.height <= FIELD_HEIGHT,
        -COORD_MAX <= paddle@.position.x <= COORD_MAX,
        0 <= paddle@.position.y <= FIELD_HEIGHT,
        1 <= old(ball)@.width <= FIELD_WIDTH,
        1 <= old(ball)@.height <= FIELD_HEIGHT,
        -2 * COORD_MAX <= old(ball)@.position.x <= 2 * COORD_MAX,
        -COORD_MAX <= old(ball)@.position.y <= COORD_MAX,
        -COORD_MAX <= old(ball)@.velocity.x <= COORD_MAX,
        -COORD_MAX <= old(ball)@.velocity.y <= COORD_MAX,
    ensures
        final(ball)@ == ball_after_hit(old(ball)@, paddle@),
{
    let s: i64 = signum(ball.velocity.x);
    ball.velocity.x = clamp_coord(-(ball.velocity.x + BALL_ACC * s));
    let pc = paddle.centre();
    let bc = ball.centre();
    let num: i64 = PADDLE_SPIN * (bc.y - pc.y);
    proof {
        lemma_tdiv_bounded(num as int, paddle@.height);
    }
    let spin: i64 = div_trunc(num, paddle.height);
    ball.velocity.y = clamp_coord(ball.velocity.y + spin);
}

} // verus!
