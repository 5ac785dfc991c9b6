//! The collision resolver: wall reflection and the angle-remapping paddle
//! bounce, run every tick right after the ball has moved.
//!
//! The checks are plain box-overlap tests re-run every tick, so a ball
//! that still overlaps a surface on the next tick is detected, and has
//! its velocity remapped, again. That re-trigger on a sustained overlap
//! is a known and accepted edge of this design; each single tick still
//! emits at most one event per surface.

use vstd::prelude::*;

use crate::angle::ANGLE_STEPS;
use crate::geometry::{
    abs_val, BALL_HALF_SIZE, COURT_HALF_HEIGHT, PADDLE_HALF_HEIGHT, PADDLE_HALF_WIDTH,
};
use crate::state::{Ball, GameEvent, Paddle, Side, Velocity};

verus! {

/// The ball's box pokes past the top or bottom wall line.
pub open spec fn ball_overlaps_wall(b: Ball) -> bool {
    abs_val(b.y as int) + BALL_HALF_SIZE > COURT_HALF_HEIGHT
}

/// A perfectly elastic vertical reflection: the angle flips sign, so the
/// vertical velocity component flips sign while the speed and the
/// horizontal component are kept.
pub open spec fn wall_reflect_spec(v: Velocity) -> Velocity {
    Velocity { speed: v.speed, dir: v.dir, angle: (-v.angle) as i64 }
}

/// The ball's box overlaps the paddle's box on both axes (every
/// separating-axis test fails; touching boxes do not overlap).
pub open spec fn ball_overlaps_paddle(b: Ball, p: Paddle) -> bool {
    &&& abs_val(b.x - p.x) < BALL_HALF_SIZE + PADDLE_HALF_WIDTH
    &&& abs_val(b.y - p.y) < BALL_HALF_SIZE + PADDLE_HALF_HEIGHT
}

/// The quantised impact offset: how many angle steps the contact point
/// sits from the paddle centre, capped at the paddle edge. `offset` is
/// ball centre y minus paddle centre y; the result carries its sign.
pub open spec fn impact_steps(offset: int) -> int {
    let raw = abs_val(offset) * ANGLE_STEPS / (PADDLE_HALF_HEIGHT as int);
    let capped = if raw > ANGLE_STEPS {
        ANGLE_STEPS as int
    } else {
        raw
    };
    if offset < 0 {
        -capped
    } else {
        capped
    }
}

/// The paddle bounce: the speed is kept, the ball is redirected away from
/// the paddle's side of the court, and the outgoing angle is the quantised
/// impact offset (paddle centre sends the ball out flat, the edges at the
/// full bounce angle).
pub open spec fn paddle_bounce_spec(b: Ball, p: Paddle) -> Velocity {
    Velocity {
        speed: b.vel.speed,
        dir: if p.x < 0 {
            Side::Right
        } else {
            Side::Left
        },
        angle: impact_steps(b.y - p.y) as i64,
    }
}

/// The ball after the wall check: reflected when it overlaps a wall,
/// untouched otherwise.
pub open spec fn wall_step_spec(b: Ball) -> Ball {
    if ball_overlaps_wall(b) {
        Ball { x: b.x, y: b.y, vel: wall_reflect_spec(b.vel) }
    } else {
        b
    }
}

/// The ball after one paddle's check: bounced when the boxes overlap,
/// untouched otherwise.
pub open spec fn paddle_step_spec(b: Ball, p: Paddle) -> Ball {
    if ball_overlaps_paddle(b, p) {
        Ball { x: b.x, y: b.y, vel: paddle_bounce_spec(b, p) }
    } else {
        b
    }
}

/// The ball after the whole resolver: walls first, then the left paddle,
/// then the right one. A ball never overlaps both paddles, so the order
/// of the last two does not matter.
pub open spec fn resolve_collisions_spec(b: Ball, left: Paddle, right: Paddle) -> Ball {
    paddle_step_spec(paddle_step_spec(wall_step_spec(b), left), right)
}

/// The events the resolver emits, in the order the checks run.
pub open spec fn collision_events_spec(b: Ball, left: Paddle, right: Paddle) -> Seq<GameEvent> {
    let wall = if ball_overlaps_wall(b) {
        seq![GameEvent::WallHit]
    } else {
        Seq::<GameEvent>::empty()
    };
    let b1 = wall_step_spec(b);
    let lhit = if ball_overlaps_paddle(b1, left) {
        seq![GameEvent::PaddleHit(Side::Left)]
    } else {
        Seq::<GameEvent>::empty()
    };
    let b2 = paddle_step_spec(b1, left);
    let rhit = if ball_overlaps_paddle(b2, right) {
        seq![GameEvent::PaddleHit(Side::Right)]
    } else {
        Seq::<GameEvent>::empty()
    };
    wall + lhit + rhit
}

/// Reflects the ball off a wall when it overlaps one.
pub fn collide_with_walls(b: &mut Ball) -> (hit: bool)
    requires
        old(b).wf(),
    ensures
        hit == ball_overlaps_wall(*old(b)),
        *final(b) == wall_step_spec(*old(b)),
        final(b).wf(),
{
    let y_mag: i64 = if b.y < 0 {
        -b.y
    } else {
        b.y
    };
    if y_mag + BALL_HALF_SIZE > COURT_HALF_HEIGHT {
        b.vel = Velocity { speed: b.vel.speed, dir: b.vel.dir, angle: -b.vel.angle };
        true
    } else {
        false
    }
}

/// Bounces the ball off `p` when their boxes overlap.
pub fn collide_with_paddle(b: &mut Ball, p: &Paddle) -> (hit: bool)
    requires
        old(b).wf(),
        p.wf(),
    ensures
        hit == ball_overlaps_paddle(*old(b), *p),
        *final(b) == paddle_step_spec(*old(b), *p),
        final(b).wf(),
{
    let x_gap: i64 = if b.x < p.x {
        p.x - b.x
    } else {
        b.x - p.x
    };
    let offset: i64 = b.y - p.y;
    let y_gap: i64 = if offset < 0 {
        -offset
    } else {
        offset
    };
    if x_gap < BALL_HALF_SIZE + PADDLE_HALF_WIDTH && y_gap < BALL_HALF_SIZE + PADDLE_HALF_HEIGHT {
        let raw: i64 = y_gap * ANGLE_STEPS / PADDLE_HALF_HEIGHT;
        let capped: i64 = if raw > ANGLE_STEPS {
            ANGLE_STEPS
        } else {
            raw
        };
        let steps: i64 = if offset < 0 {
            -capped
        } else {
            capped
        };
        let dir = if p.x < 0 {
            Side::Right
        } else {
            Side::Left
        };
        b.vel = Velocity { speed: b.vel.speed, dir, angle: steps };
        true
    } else {
        false
    }
}

/// Runs the whole resolver for one tick and returns the contacts found.
pub fn handle_collisions(b: &mut Ball, left: &Paddle, right: &Paddle) -> (events: Vec<GameEvent>)
    requires
        old(b).wf(),
        left.wf(),
        right.wf(),
    ensures
        *final(b) == resolve_collisions_spec(*old(b), *left, *right),
        events@ == collision_events_spec(*old(b), *left, *right),
        final(b).wf(),
{
    let mut events: Vec<GameEvent> = Vec::new();
    if collide_with_walls(b) {
        events.push(GameEvent::WallHit);
    }
    if collide_with_paddle(b, left) {
        events.push(GameEvent::PaddleHit(Side::Left));
    }
    if collide_with_paddle(b, right) {
        events.push(GameEvent::PaddleHit(Side::Right));
    }
    proof {
        assert(events@ =~= collision_events_spec(*old(b), *left, *right));
    }
    events
}

} // verus!
