//! Laws of the simulation, stated and proved over the spec-level step
//! functions that `GameState::update` is verified against.

use vstd::prelude::*;
use crate::entity::EntityV;
use crate::num::{mag, sign};
use crate::sim::{
    ball_integrated,
    hit_vx,
    paddle_y_after,
    spec_physics,
    spec_transition,
    spec_update,
    Input,
    Phase,
    StateV,
};
use crate::{BALL_ACC, COORD_MAX, FIELD_HEIGHT, WIN_SCORE};

verus! {

/// Clamped movement keeps a paddle inside the field: from any in-field y,
/// whatever keys are held, the new y stays within
/// `[0, FIELD_HEIGHT - height]`. Together with `update`'s preservation of
/// well-formedness this holds on every frame of play.
pub proof fn lemma_paddle_stays_in_field(y: int, height: int, up: bool, down: bool)
    requires
        1 <= height <= FIELD_HEIGHT,
        0 <= y <= FIELD_HEIGHT - height,
    ensures
        0 <= paddle_y_after(y, height, up, down) <= FIELD_HEIGHT - height,
{
}

/// Ball integration is deterministic and exact: before any collision
/// adjustment, the next position is the old position plus the velocity,
/// provided the vertical sum stays within the coordinate bound at which
/// the simulation saturates.
pub proof fn lemma_integration_exact(e: EntityV)
    requires
        -COORD_MAX <= e.position.y + e.velocity.y <= COORD_MAX,
    ensures
        ball_integrated(e).position.x == e.position.x + e.velocity.x,
        ball_integrated(e).position.y == e.position.y + e.velocity.y,
        ball_integrated(e).velocity == e.velocity,
{
}

/// One paddle hit reverses the ball's horizontal direction and grows its
/// speed by exactly `BALL_ACC`, as long as the speed stays within the
/// coordinate bound at which the simulation saturates.
pub proof fn lemma_hit_speeds_up(vx: int)
    requires
        vx != 0,
        mag(vx) + BALL_ACC <= COORD_MAX,
    ensures
        mag(hit_vx(vx)) == mag(vx) + BALL_ACC,
        sign(hit_vx(vx)) == -sign(vx),
{
}

/// The horizontal velocity after `n` consecutive paddle hits.
pub open spec fn hit_vx_iter(vx: int, n: nat) -> int
    decreases n,
{
    if n == 0 {
        vx
    } else {
        hit_vx(hit_vx_iter(vx, (n - 1) as nat))
    }
}

/// Collision acceleration is monotonic: across `n` consecutive paddle
/// hits the ball's horizontal speed grows by exactly `BALL_ACC` per hit —
/// in particular it strictly increases with every hit — as long as it
/// stays within the coordinate bound at which the simulation saturates.
pub proof fn lemma_hits_monotonic(vx: int, n: nat)
    requires
        vx != 0,
        mag(vx) + n * BALL_ACC <= COORD_MAX,
    ensures
        mag(hit_vx_iter(vx, n)) == mag(vx) + n * BALL_ACC,
    decreases n,
{
    if n > 0 {
        lemma_hits_monotonic(vx, (n - 1) as nat);
        lemma_hit_speeds_up(hit_vx_iter(vx, (n - 1) as nat));
    }
}

/// Win detection: on a frame of play, a score standing at exactly
/// `WIN_SCORE` when the frame ends has moved the game to `Ended` with the
/// winner named in the end text, player 1 checked first; while both scores
/// are anything else (reaching 10, say) the game stays in `Playing` and
/// the end text is untouched.
pub proof fn lemma_win_detection(v: StateV, i: Input)
    requires
        v.wf(),
        spec_transition(v, i).0.phase == Phase::Playing,
    ensures
        ({
            let r = spec_update(v, i).0;
            &&& (r.player1.points == WIN_SCORE ==> r.phase == Phase::Ended && r.end_text
                == "Player 1 wins"@)
            &&& (r.player2.points == WIN_SCORE && r.player1.points != WIN_SCORE ==> r.phase
                == Phase::Ended && r.end_text == "Player 2 wins"@)
            &&& (r.player1.points != WIN_SCORE && r.player2.points != WIN_SCORE ==> r.phase
                == Phase::Playing && r.end_text == v.end_text)
        }),
{
    let (v1, _) = spec_transition(v, i);
    let (v2, _) = spec_physics(v1, i);
    assert(spec_update(v, i).0 == v2);
}

/// Round trip through a rally: a frame that is in play — or enters play
/// from the menu or the end screen this very frame — and ends with neither
/// score at the winning mark leaves the game in `Playing`. Scoring no
/// points and never reaching the win condition therefore never moves the
/// phase away from `Playing`, frame after frame.
pub proof fn lemma_playing_persists(v: StateV, i: Input)
    requires
        v.wf(),
        v.phase == Phase::Playing || (v.phase == Phase::Menu && i.start) || (v.phase
            == Phase::Ended && i.restart),
        spec_update(v, i).0.player1.points != WIN_SCORE,
        spec_update(v, i).0.player2.points != WIN_SCORE,
    ensures
        spec_update(v, i).0.phase == Phase::Playing,
{
    let (v1, _) = spec_transition(v, i);
    let (v2, _) = spec_physics(v1, i);
    assert(spec_update(v, i).0 == v2);
}

} // verus!
