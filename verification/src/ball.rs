//! The ball: a square of fixed extent with a position and a velocity.
//!
//! A reflection negates one velocity component and grows its magnitude
//! by one percent (rounded down in milli-units); integration adds the
//! velocity to the position, unconditionally. Both saturate at the far
//! numeric bounds `VEL_MAX` / `POS_MAX` so that every tick stays in
//! range, whatever state the game has reached.

use vstd::prelude::*;

use crate::board::{POS_MAX, VEL_MAX};

verus! {

/// The ball's state in milli-units. The extent (10 units a side) is
/// fixed and lives in `board::BALL_SIDE`.
#[derive(Clone, Copy, PartialEq, Eq, Structural, Debug)]
pub struct Ball {
    /// Left edge of the ball's square.
    pub x: i64,
    /// Top edge of the ball's square.
    pub y: i64,
    /// Horizontal velocity per tick; positive is rightward.
    pub vx: i64,
    /// Vertical velocity per tick; positive is downward.
    pub vy: i64,
}

/// Mathematical view of a ball.
pub ghost struct BallModel {
    pub x: int,
    pub y: int,
    pub vx: int,
    pub vy: int,
}

impl View for Ball {
    type V = BallModel;

    open spec fn view(&self) -> BallModel {
        BallModel { x: self.x as int, y: self.y as int, vx: self.vx as int, vy: self.vy as int }
    }
}

/// A velocity component the simulation can carry.
pub open spec fn vel_ok(v: int) -> bool {
    -VEL_MAX <= v <= VEL_MAX
}

/// A position coordinate the simulation can carry.
pub open spec fn pos_ok(p: int) -> bool {
    -POS_MAX <= p <= POS_MAX
}

/// A ball the simulation can carry.
pub open spec fn ball_ok(b: BallModel) -> bool {
    pos_ok(b.x) && pos_ok(b.y) && vel_ok(b.vx) && vel_ok(b.vy)
}

/// What a reflection does to one velocity component: the sign flips and
/// the magnitude grows by one percent, rounded down, saturating at
/// `VEL_MAX`.
pub open spec fn reflect_vel(v: int) -> int {
    let m = if v >= 0 { v } else { -v };
    let grown = m * 101 / 100;
    let capped = if grown > VEL_MAX { VEL_MAX as int } else { grown };
    if v >= 0 { -capped } else { capped }
}

/// Integration saturates position coordinates here.
pub open spec fn clamp_pos(p: int) -> int {
    if p < -POS_MAX { -POS_MAX as int } else if p > POS_MAX { POS_MAX as int } else { p }
}

/// The ball after a horizontal reflection.
pub open spec fn reflect_x_spec(b: BallModel) -> BallModel {
    BallModel { vx: reflect_vel(b.vx), ..b }
}

/// The ball after a vertical reflection.
pub open spec fn reflect_y_spec(b: BallModel) -> BallModel {
    BallModel { vy: reflect_vel(b.vy), ..b }
}

/// The ball after one integration step.
pub open spec fn integrate_spec(b: BallModel) -> BallModel {
    BallModel { x: clamp_pos(b.x + b.vx), y: clamp_pos(b.y + b.vy), ..b }
}

/// A reflected velocity component is again a carried velocity, and the
/// sign truly flips: rightward becomes leftward and the other way round.
pub proof fn lemma_reflect_vel_ok(v: int)
    requires
        vel_ok(v),
    ensures
        vel_ok(reflect_vel(v)),
        v > 0 ==> reflect_vel(v) < 0,
        v < 0 ==> reflect_vel(v) > 0,
        v == 0 ==> reflect_vel(v) == 0,
{
    let m = if v >= 0 { v } else { -v };
    assert(m * 101 / 100 >= m) by (nonlinear_arith)
        requires m >= 0,
    ;
    assert(m * 101 / 100 >= 0);
}

/// Executable reflection of one velocity component.
fn reflect_vel_exec(v: i64) -> (r: i64)
    requires
        vel_ok(v as int),
    ensures
        r as int == reflect_vel(v as int),
{
    let m: u64 = if v >= 0 { v as u64 } else { (-v) as u64 };
    assert(m as int == if v >= 0 { v as int } else { -(v as int) });
    let grown: u64 = m * 101 / 100;
    let capped: i64 = if grown > VEL_MAX as u64 { VEL_MAX } else {
        assert(grown <= VEL_MAX as u64);
        grown as i64
    };
    proof {
        lemma_reflect_vel_ok(v as int);
    }
    if v >= 0 { -capped } else { capped }
}

impl Ball {
    /// The ball at simulation start: board center, moving up-right at
    /// 0.2 units per tick.
    pub fn new() -> (b: Ball)
        ensures
            b@ == (BallModel { x: 315_000int, y: 175_000int, vx: 200int, vy: -200int }),
            ball_ok(b@),
    {
        Ball { x: 315_000, y: 175_000, vx: 200, vy: -200 }
    }

    /// Reflect the horizontal velocity: negate and amplify.
    pub fn reflect_x(&mut self)
        requires
            ball_ok(old(self)@),
        ensures
            final(self)@ == reflect_x_spec(old(self)@),
            ball_ok(final(self)@),
    {
        proof {
            lemma_reflect_vel_ok(self.vx as int);
        }
        self.vx = reflect_vel_exec(self.vx);
    }

    /// Reflect the vertical velocity: negate and amplify.
    pub fn reflect_y(&mut self)
        requires
            ball_ok(old(self)@),
        ensures
            final(self)@ == reflect_y_spec(old(self)@),
            ball_ok(final(self)@),
    {
        proof {
            lemma_reflect_vel_ok(self.vy as int);
        }
        self.vy = reflect_vel_exec(self.vy);
    }

    /// Advance the position by the current velocity. No sub-stepping and
    /// no clamping to the board: the move is unconditional.
    pub fn integrate(&mut self)
        requires
            ball_ok(old(self)@),
        ensures
            final(self)@ == integrate_spec(old(self)@),
            ball_ok(final(self)@),
    {
        let nx: i64 = self.x + self.vx;
        let ny: i64 = self.y + self.vy;
        self.x = if nx < -POS_MAX { -POS_MAX } else if nx > POS_MAX { POS_MAX } else { nx };
        self.y = if ny < -POS_MAX { -POS_MAX } else if ny > POS_MAX { POS_MAX } else { ny };
    }
}

} // verus!
