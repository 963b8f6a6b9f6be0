//! Fixed dimensions of the board and of every actor on it.
//!
//! All lengths, positions and per-tick speeds are in milli-units:
//! 1000 subunits to one board unit.

use vstd::prelude::*;

verus! {

/// Subunits per board unit.
pub const SUBUNITS: i64 = 1_000;

/// Board width (630 units).
pub const BOARD_W: i64 = 630_000;

/// Board height (350 units).
pub const BOARD_H: i64 = 350_000;

/// Side of the square ball (10 units).
pub const BALL_SIDE: i64 = 10_000;

/// Half the ball's side (5 units).
pub const BALL_HALF: i64 = 5_000;

/// Paddle width (84 units).
pub const PADDLE_W: i64 = 84_000;

/// Paddle height (15 units).
pub const PADDLE_H: i64 = 15_000;

/// Fixed vertical position of the paddle's top edge (320 units).
pub const PADDLE_Y: i64 = 320_000;

/// Horizontal offset of the paddle's midpoint from its left edge (42 units).
pub const PADDLE_MID: i64 = 42_000;

/// Distance the paddle covers in one tick while a direction is active
/// (1 unit).
pub const PADDLE_STEP: i64 = 1_000;

/// A paddle contact reflects the ball vertically only when the ball's
/// bottom edge is at or above this line (342.5 units); deeper contacts
/// within the trigger zone leave the vertical velocity alone.
pub const PADDLE_REFLECT_LIMIT: i64 = 342_500;

/// Block width (42 units).
pub const BLOCK_W: i64 = 42_000;

/// Block height (15 units).
pub const BLOCK_H: i64 = 15_000;

/// Horizontal offset of a block's midpoint from its left edge (21 units).
pub const BLOCK_MID: i64 = 21_000;

/// Columns of the initial block grid.
pub const BLOCK_COLS: usize = 15;

/// Rows of the initial block grid.
pub const BLOCK_ROWS: usize = 6;

/// Bias of the block-collision direction test: a horizontal velocity
/// above -5 units per tick counts as rightward there.
pub const RIGHTWARD_BIAS: i64 = 5_000;

/// Largest velocity magnitude the simulation carries. Reflections grow a
/// component by one percent, so speed is capped here to keep the
/// arithmetic in range; reaching the cap from the starting speed would
/// take thousands of consecutive reflections of one component, far
/// beyond any playable game.
pub const VEL_MAX: i64 = 1_000_000_000_000_000;

/// Largest position coordinate the simulation carries. Integration
/// saturates here; the bound is more than a hundred billion board widths
/// away from play.
pub const POS_MAX: i64 = 100_000_000_000_000_000;

/// Ball starting position: the board center, in milli-units.
pub const BALL_START_X: i64 = 315_000;

/// Ball starting position: the board center, in milli-units.
pub const BALL_START_Y: i64 = 175_000;

/// Ball starting velocity (0.2 units per tick, rightward).
pub const BALL_START_VX: i64 = 200;

/// Ball starting velocity (0.2 units per tick, upward).
pub const BALL_START_VY: i64 = -200;

/// Paddle starting position (mid-board).
pub const PADDLE_START_X: i64 = 315_000;

} // verus!
