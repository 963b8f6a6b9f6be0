//! Collision resolution: board edges, blocks and the paddle.
//!
//! The board-edge rule is an exclusive chain — at most one edge
//! condition acts per tick, the side walls first, then the ceiling,
//! then the floor (a terminal loss). Block and paddle collisions are
//! independent checks run in sequence after it.

use vstd::prelude::*;

use crate::ball::{
    ball_ok, reflect_x_spec, reflect_y_spec, Ball, BallModel,
};
use crate::blocks::{
    field_ok, first_hit, lemma_first_hit_props, Block, BlockField, FieldModel,
};
use crate::board::{
    BALL_HALF, BALL_SIDE, BLOCK_MID, BOARD_H, BOARD_W, PADDLE_MID, PADDLE_REFLECT_LIMIT, PADDLE_W,
    PADDLE_Y, RIGHTWARD_BIAS, VEL_MAX,
};
use crate::paddle::{paddle_ok, Paddle, PaddleModel};

verus! {

/// The ball touches or passes a side wall.
pub open spec fn wall_x_hit(b: BallModel) -> bool {
    b.x <= 0 || b.x + BALL_SIDE >= BOARD_W
}

/// The ball touches or passes the ceiling.
pub open spec fn ceiling_hit(b: BallModel) -> bool {
    b.y <= 0
}

/// The ball's bottom edge reaches the floor: the loss condition.
pub open spec fn floor_hit(b: BallModel) -> bool {
    b.y + BALL_SIDE >= BOARD_H
}

/// The board-edge phase: an exclusive chain. A side-wall contact
/// reflects horizontally; failing that, a ceiling contact reflects
/// vertically; failing that, a floor contact reports the loss. Only one
/// branch acts even when several edges are touched at once.
pub open spec fn edge_phase(b: BallModel) -> (BallModel, bool) {
    if wall_x_hit(b) {
        (reflect_x_spec(b), false)
    } else if ceiling_hit(b) {
        (reflect_y_spec(b), false)
    } else if floor_hit(b) {
        (b, true)
    } else {
        (b, false)
    }
}

/// Whether a horizontal velocity counts as rightward in the block
/// direction test: anything above -5 units per tick does.
pub open spec fn moving_rightish(vx: int) -> bool {
    vx + RIGHTWARD_BIAS > 0
}

/// Whether a horizontal velocity counts as leftward in the block
/// direction test.
pub open spec fn moving_leftish(vx: int) -> bool {
    vx + RIGHTWARD_BIAS < 0
}

/// Whether a block hit reflects the ball horizontally: moving rightward
/// with the ball's left edge at or left of the block's midpoint, or
/// moving leftward with it at or right of the midpoint.
pub open spec fn block_deflects_x(ball: BallModel, blk: Block) -> bool {
    ||| (moving_rightish(ball.vx) && ball.x <= blk.x + BLOCK_MID)
    ||| (moving_leftish(ball.vx) && ball.x >= blk.x + BLOCK_MID)
}

/// The ball after hitting one block: a horizontal reflection when the
/// midpoint test says so, and a vertical reflection always.
pub open spec fn ball_after_block(ball: BallModel, blk: Block) -> BallModel {
    let b1 = if block_deflects_x(ball, blk) { reflect_x_spec(ball) } else { ball };
    reflect_y_spec(b1)
}

/// The block phase: the first stored block overlapping the ball's box,
/// if any, reflects the ball and is removed — the same index from both
/// parallel sequences. At most one block is processed per tick.
pub open spec fn block_phase(ball: BallModel, f: FieldModel) -> (BallModel, FieldModel) {
    match first_hit(f.blocks, ball) {
        Some(i) => (
            ball_after_block(ball, f.blocks[i]),
            FieldModel { blocks: f.blocks.remove(i), colors: f.colors.remove(i) },
        ),
        None => (ball, f),
    }
}

/// The paddle contact trigger: the ball's box reaches the paddle's
/// horizontal span and its bottom edge is at or below the paddle line.
pub open spec fn paddle_trigger(ball: BallModel, p: PaddleModel) -> bool {
    &&& ball.x + BALL_SIDE >= p.x
    &&& ball.x <= p.x + PADDLE_W
    &&& ball.y + BALL_SIDE >= PADDLE_Y
}

/// Whether a paddle contact reflects vertically: only when the ball's
/// bottom edge is still at or above the reflect limit. A deeper contact
/// within the trigger zone leaves the vertical velocity alone — a
/// deliberate quirk of the game, kept as it is.
pub open spec fn paddle_deflects_y(ball: BallModel) -> bool {
    ball.y + BALL_SIDE <= PADDLE_REFLECT_LIMIT
}

/// Whether a paddle contact reflects horizontally: the midpoint test
/// against the paddle's own midpoint, taken at the ball's center.
pub open spec fn paddle_deflects_x(ball: BallModel, p: PaddleModel) -> bool {
    if ball.vx >= 0 {
        ball.x + BALL_HALF <= p.x + PADDLE_MID
    } else {
        ball.x + BALL_HALF >= p.x + PADDLE_MID
    }
}

/// The paddle phase: on a trigger contact the bounce cue fires, the
/// vertical reflection applies only above the reflect limit, and the
/// horizontal reflection follows the midpoint test. Without a trigger
/// nothing changes.
pub open spec fn paddle_phase(ball: BallModel, p: PaddleModel) -> (BallModel, bool) {
    if paddle_trigger(ball, p) {
        let b1 = if paddle_deflects_y(ball) { reflect_y_spec(ball) } else { ball };
        let b2 = if paddle_deflects_x(b1, p) { reflect_x_spec(b1) } else { b1 };
        (b2, true)
    } else {
        (ball, false)
    }
}

/// A rightward-moving ball that hits a block with its left edge at or
/// left of the block's midpoint has its horizontal velocity sign
/// flipped and its magnitude scaled by 1.01 (and the vertical component
/// reflects as on every block hit).
pub proof fn lemma_block_hit_near_side_reflects_x(ball: BallModel, blk: Block)
    requires
        ball.vx > 0,
        ball.x <= blk.x + BLOCK_MID,
        crate::ball::vel_ok(ball.vx),
        ball.vx * 101 / 100 <= VEL_MAX,
    ensures
        ball_after_block(ball, blk).vx == -(ball.vx * 101 / 100),
        ball_after_block(ball, blk).vx < 0,
        ball_after_block(ball, blk).vy == crate::ball::reflect_vel(ball.vy),
{
    crate::ball::lemma_reflect_vel_ok(ball.vx);
}

/// A rightward-moving ball that hits a block from the block's right
/// side (left edge right of the midpoint) keeps its horizontal
/// velocity unchanged; only the vertical component reflects.
pub proof fn lemma_block_hit_far_side_keeps_vx(ball: BallModel, blk: Block)
    requires
        ball.vx > 0,
        ball.x > blk.x + BLOCK_MID,
    ensures
        ball_after_block(ball, blk).vx == ball.vx,
        ball_after_block(ball, blk).vy == crate::ball::reflect_vel(ball.vy),
{
}

/// The paddle's partial-reflection quirk: a trigger contact whose ball
/// bottom lies below the reflect limit does not reflect vertically that
/// tick — the vertical velocity is exactly what it was, though the
/// bounce cue still fires.
pub proof fn lemma_paddle_graze_keeps_vy(ball: BallModel, p: PaddleModel)
    requires
        paddle_trigger(ball, p),
        ball.y + BALL_SIDE > PADDLE_REFLECT_LIMIT,
    ensures
        paddle_phase(ball, p).0.vy == ball.vy,
        paddle_phase(ball, p).1 == true,
{
}

/// Run the board-edge chain on the ball; the result says whether the
/// ball passed the floor, which ends the game.
pub fn resolve_edges(ball: &mut Ball) -> (lost: bool)
    requires
        ball_ok(old(ball)@),
    ensures
        final(ball)@ == edge_phase(old(ball)@).0,
        lost == edge_phase(old(ball)@).1,
        ball_ok(final(ball)@),
{
    if ball.x <= 0 || ball.x + BALL_SIDE >= BOARD_W {
        ball.reflect_x();
        false
    } else if ball.y <= 0 {
        ball.reflect_y();
        false
    } else if ball.y + BALL_SIDE >= BOARD_H {
        true
    } else {
        false
    }
}

/// Resolve a block collision: reflect off the first overlapping block
/// and remove it, or do nothing when no block overlaps. Returns the
/// removed index, if any.
pub fn resolve_blocks(ball: &mut Ball, field: &mut BlockField) -> (hit: Option<usize>)
    requires
        ball_ok(old(ball)@),
        field_ok(old(field)@),
    ensures
        final(ball)@ == block_phase(old(ball)@, old(field)@).0,
        final(field)@ == block_phase(old(ball)@, old(field)@).1,
        ball_ok(final(ball)@),
        field_ok(final(field)@),
        match hit {
            Some(i) => first_hit(old(field)@.blocks, old(ball)@) == Some(i as int),
            None => first_hit(old(field)@.blocks, old(ball)@) is None,
        },
{
    let hit = field.find_collision(ball);
    match hit {
        Some(i) => {
            proof {
                lemma_first_hit_props(field@.blocks, ball@);
            }
            let blk = field.blocks[i];
            if (ball.vx + RIGHTWARD_BIAS > 0 && ball.x <= blk.x + BLOCK_MID)
                || (ball.vx + RIGHTWARD_BIAS < 0 && ball.x >= blk.x + BLOCK_MID) {
                ball.reflect_x();
            }
            ball.reflect_y();
            field.remove_at(i);
            Some(i)
        },
        None => None,
    }
}

/// Resolve a paddle contact: reflect per the trigger's sub-rules and
/// report whether the bounce cue should play. The cue itself is the
/// caller's fire-and-forget concern.
pub fn resolve_paddle(ball: &mut Ball, paddle: &Paddle) -> (bounce: bool)
    requires
        ball_ok(old(ball)@),
        paddle_ok(paddle@),
    ensures
        final(ball)@ == paddle_phase(old(ball)@, paddle@).0,
        bounce == paddle_phase(old(ball)@, paddle@).1,
        ball_ok(final(ball)@),
{
    if ball.x + BALL_SIDE >= paddle.x
        && ball.x <= paddle.x + PADDLE_W
        && ball.y + BALL_SIDE >= PADDLE_Y {
        if ball.y + BALL_SIDE <= PADDLE_REFLECT_LIMIT {
            ball.reflect_y();
        }
        let deflect_x = if ball.vx >= 0 {
            ball.x + BALL_HALF <= paddle.x + PADDLE_MID
        } else {
            ball.x + BALL_HALF >= paddle.x + PADDLE_MID
        };
        if deflect_x {
            ball.reflect_x();
        }
        true
    } else {
        false
    }
}

} // verus!
