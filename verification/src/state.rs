//! The simulation's data model: sides, phases, score, paddles, ball and the
//! aggregate state one tick acts on.

use vstd::prelude::*;

use crate::angle::{cos_table, sin_table, cos_lookup, sin_lookup, ANGLE_STEPS, TRIG_SCALE};
use crate::geometry::{
    abs_val, BALL_BASE_SPEED, BALL_MAX_SPEED, PADDLE_X_OFFSET, PADDLE_Y_LIMIT, POSITION_LIMIT,
    SPEED_RAMP_INTERVAL_MS, WIN_SCORE,
};

verus! {

/// One of the two players, also used as a horizontal direction: `Left`
/// points toward negative `x`, `Right` toward positive `x`.
#[derive(Clone, Copy, Debug, PartialEq, Eq, Structural)]
pub enum Side {
    Left,
    Right,
}

/// The top-level mode of a session.
#[derive(Clone, Copy, Debug, PartialEq, Eq, Structural)]
pub enum GamePhase {
    StartScreen,
    Playing,
}

/// A contact found while resolving collisions, emitted for the current
/// tick only and meant for an audio collaborator.
#[derive(Clone, Copy, Debug, PartialEq, Eq, Structural)]
pub enum GameEvent {
    WallHit,
    PaddleHit(Side),
}

/// The running score of the two players.
#[derive(Clone, Copy, Debug, PartialEq, Eq, Structural)]
pub struct Score {
    pub left: u32,
    pub right: u32,
}

/// A ball's velocity in polar form: a speed in milliunits per second, a
/// horizontal direction of travel, and a quantised angle away from the
/// horizontal (positive steps point up).
#[derive(Clone, Copy, Debug, PartialEq, Eq, Structural)]
pub struct Velocity {
    pub speed: u64,
    pub dir: Side,
    pub angle: i64,
}

/// A paddle's centre; only `y` ever changes.
#[derive(Clone, Copy, Debug, PartialEq, Eq, Structural)]
pub struct Paddle {
    pub x: i64,
    pub y: i64,
}

/// The ball's centre and velocity.
#[derive(Clone, Copy, Debug, PartialEq, Eq, Structural)]
pub struct Ball {
    pub x: i64,
    pub y: i64,
    pub vel: Velocity,
}

/// Everything one tick of the simulation reads and writes.
#[derive(Clone, Copy, Debug, PartialEq, Eq)]
pub struct SimState {
    pub phase: GamePhase,
    pub winner: Option<Side>,
    pub score: Score,
    pub left_paddle: Paddle,
    pub right_paddle: Paddle,
    pub ball: Ball,
    /// Play time in milliseconds since the speed ramp last fired.
    pub timer_ms: u64,
}

/// The keys the core reacts to, already abstracted from concrete key
/// codes: the four held paddle keys, plus whether any key at all, and
/// whether the exit key, went from released to pressed this tick.
#[derive(Clone, Copy, Debug, PartialEq, Eq, Structural)]
pub struct InputState {
    pub left_up_held: bool,
    pub left_down_held: bool,
    pub right_up_held: bool,
    pub right_down_held: bool,
    pub any_key_just_pressed: bool,
    pub exit_just_pressed: bool,
}

impl Velocity {
    /// A velocity the simulation keeps: the angle is within the bounce
    /// range and the speed within the machine's speed cap.
    pub open spec fn wf(self) -> bool {
        &&& self.speed <= BALL_MAX_SPEED
        &&& -ANGLE_STEPS <= self.angle <= ANGLE_STEPS
    }

    /// Magnitude of the horizontal velocity component, in milliunits per
    /// second.
    pub open spec fn x_mag(self) -> int {
        self.speed * cos_table(abs_val(self.angle as int)) / (TRIG_SCALE as int)
    }

    /// Magnitude of the vertical velocity component.
    pub open spec fn y_mag(self) -> int {
        self.speed * sin_table(abs_val(self.angle as int)) / (TRIG_SCALE as int)
    }

    /// Signed horizontal velocity component.
    pub open spec fn x_component(self) -> int {
        if self.dir is Right {
            self.x_mag()
        } else {
            -self.x_mag()
        }
    }

    /// Signed vertical velocity component.
    pub open spec fn y_component(self) -> int {
        if self.angle >= 0 {
            self.y_mag()
        } else {
            -self.y_mag()
        }
    }

    /// The velocity of a freshly served ball: base speed, horizontal,
    /// travelling toward `dir`.
    pub open spec fn serve_spec(dir: Side) -> Velocity {
        Velocity { speed: BALL_BASE_SPEED, dir, angle: 0 }
    }

    /// Builds the serve velocity toward `dir`.
    pub fn serve(dir: Side) -> (v: Velocity)
        ensures
            v == Velocity::serve_spec(dir),
    {
        Velocity { speed: BALL_BASE_SPEED, dir, angle: 0 }
    }

    /// Computes the magnitude of the horizontal velocity component.
    pub fn compute_x_mag(&self) -> (r: u64)
        requires
            self.wf(),
        ensures
            r == self.x_mag(),
            r <= self.speed,
    {
        let k: i64 = if self.angle < 0 {
            -self.angle
        } else {
            self.angle
        };
        let c: u64 = cos_lookup(k);
        proof {
            crate::angle::lemma_trig_table_bounds(k as int);
            assert(self.speed * c <= BALL_MAX_SPEED * TRIG_SCALE) by (nonlinear_arith)
                requires
                    self.speed <= BALL_MAX_SPEED,
                    c <= TRIG_SCALE,
            ;
            assert(self.speed * c / (TRIG_SCALE as int) <= self.speed) by (nonlinear_arith)
                requires
                    c <= TRIG_SCALE,
            ;
        }
        self.speed * c / TRIG_SCALE
    }

    /// Computes the magnitude of the vertical velocity component.
    pub fn compute_y_mag(&self) -> (r: u64)
        requires
            self.wf(),
        ensures
            r == self.y_mag(),
            r <= self.speed,
    {
        let k: i64 = if self.angle < 0 {
            -self.angle
        } else {
            self.angle
        };
        let s: u64 = sin_lookup(k);
        proof {
            crate::angle::lemma_trig_table_bounds(k as int);
            assert(self.speed * s <= BALL_MAX_SPEED * TRIG_SCALE) by (nonlinear_arith)
                requires
                    self.speed <= BALL_MAX_SPEED,
                    s <= TRIG_SCALE,
            ;
            assert(self.speed * s / (TRIG_SCALE as int) <= self.speed) by (nonlinear_arith)
                requires
                    s <= TRIG_SCALE,
            ;
        }
        self.speed * s / TRIG_SCALE
    }
}

impl Paddle {
    /// A paddle the simulation keeps: centred on one of the two paddle
    /// lines, with its whole height inside the court.
    pub open spec fn wf(self) -> bool {
        &&& self.x == -PADDLE_X_OFFSET || self.x == PADDLE_X_OFFSET
        &&& -PADDLE_Y_LIMIT <= self.y <= PADDLE_Y_LIMIT
    }

    /// The paddle of `side` at the start of a session, vertically centred.
    pub open spec fn initial_spec(side: Side) -> Paddle {
        Paddle {
            x: if side is Left {
                (-PADDLE_X_OFFSET) as i64
            } else {
                PADDLE_X_OFFSET
            },
            y: 0,
        }
    }

    /// Builds the starting paddle of `side`.
    pub fn initial(side: Side) -> (p: Paddle)
        ensures
            p == Paddle::initial_spec(side),
            p.wf(),
    {
        match side {
            Side::Left => Paddle { x: -PADDLE_X_OFFSET, y: 0 },
            Side::Right => Paddle { x: PADDLE_X_OFFSET, y: 0 },
        }
    }
}

impl Ball {
    /// A ball the simulation keeps: position inside the saturation box,
    /// velocity well formed.
    pub open spec fn wf(self) -> bool {
        &&& -POSITION_LIMIT <= self.x <= POSITION_LIMIT
        &&& -POSITION_LIMIT <= self.y <= POSITION_LIMIT
        &&& self.vel.wf()
    }

    /// A ball just served: at the court centre, moving horizontally toward
    /// `dir` at base speed.
    pub open spec fn serve_spec(dir: Side) -> Ball {
        Ball { x: 0, y: 0, vel: Velocity::serve_spec(dir) }
    }

    /// Builds a freshly served ball travelling toward `dir`.
    pub fn serve(dir: Side) -> (b: Ball)
        ensures
            b == Ball::serve_spec(dir),
            b.wf(),
    {
        Ball { x: 0, y: 0, vel: Velocity::serve(dir) }
    }
}

impl SimState {
    /// A state the simulation keeps between ticks: both paddles on their
    /// lines, the ball within bounds, the ramp timer strictly inside its
    /// interval, and, while playing, both scores short of the winning one.
    pub open spec fn wf(self) -> bool {
        &&& self.left_paddle.wf()
        &&& self.left_paddle.x == -PADDLE_X_OFFSET
        &&& self.right_paddle.wf()
        &&& self.right_paddle.x == PADDLE_X_OFFSET
        &&& self.ball.wf()
        &&& self.timer_ms < SPEED_RAMP_INTERVAL_MS
        &&& self.phase is Playing ==> self.score.left < WIN_SCORE && self.score.right < WIN_SCORE
    }

    /// The state a session starts in: the start screen with no winner yet,
    /// a zero score, centred paddles, and the ball racked up at the centre
    /// heading left at base speed.
    pub open spec fn initial_spec() -> SimState {
        SimState {
            phase: GamePhase::StartScreen,
            winner: None,
            score: Score { left: 0, right: 0 },
            left_paddle: Paddle::initial_spec(Side::Left),
            right_paddle: Paddle::initial_spec(Side::Right),
            ball: Ball::serve_spec(Side::Left),
            timer_ms: 0,
        }
    }

    /// Builds the starting state of a session.
    pub fn new() -> (s: SimState)
        ensures
            s == SimState::initial_spec(),
            s.wf(),
    {
        SimState {
            phase: GamePhase::StartScreen,
            winner: None,
            score: Score { left: 0, right: 0 },
            left_paddle: Paddle::initial(Side::Left),
            right_paddle: Paddle::initial(Side::Right),
            ball: Ball::serve(Side::Left),
            timer_ms: 0,
        }
    }
}

} // verus!
