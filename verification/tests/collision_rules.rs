use breakout::ball::Ball;
use breakout::blocks::{Block, BlockColor, BlockField};
use breakout::collision::{resolve_blocks, resolve_edges, resolve_paddle};
use breakout::paddle::Paddle;

#[test]
fn wall_contact_reflects_x_and_amplifies() {
    let mut ball = Ball { x: 0, y: 100_000, vx: -200, vy: -200 };
    let lost = resolve_edges(&mut ball);
    assert!(!lost);
    // Magnitude 200 grows by one percent to 202 and the sign flips.
    assert_eq!(ball.vx, 202);
    assert_eq!(ball.vy, -200);
}

#[test]
fn right_wall_contact_reflects_x() {
    let mut ball = Ball { x: 620_000, y: 100_000, vx: 200, vy: 200 };
    let lost = resolve_edges(&mut ball);
    assert!(!lost);
    assert_eq!(ball.vx, -202);
}

#[test]
fn ceiling_contact_reflects_y() {
    let mut ball = Ball { x: 100_000, y: 0, vx: 200, vy: -200 };
    let lost = resolve_edges(&mut ball);
    assert!(!lost);
    assert_eq!(ball.vx, 200);
    assert_eq!(ball.vy, 202);
}

#[test]
fn floor_contact_is_a_loss() {
    // Ball bottom 351_000 is past the 350_000 floor.
    let mut ball = Ball { x: 100_000, y: 341_000, vx: 200, vy: 200 };
    let lost = resolve_edges(&mut ball);
    assert!(lost);
    assert_eq!(ball, Ball { x: 100_000, y: 341_000, vx: 200, vy: 200 });
}

#[test]
fn simultaneous_wall_and_floor_contact_goes_to_the_wall() {
    // The edge chain is exclusive and the side walls come first: a ball
    // touching both a wall and the floor reflects and the game goes on.
    let mut ball = Ball { x: 0, y: 345_000, vx: -200, vy: 200 };
    let lost = resolve_edges(&mut ball);
    assert!(!lost);
    assert_eq!(ball.vx, 202);
    assert_eq!(ball.vy, 200);
}

#[test]
fn block_hit_near_side_reflects_x_and_y() {
    // Rightward ball at x = 10 units against a block spanning [0, 42]:
    // the ball is left of the 21-unit midpoint, so both components
    // reflect, each scaled by 1.01.
    let mut ball = Ball { x: 10_000, y: 60_000, vx: 200, vy: -200 };
    let mut f = BlockField {
        blocks: vec![Block { x: 0, y: 50_000, w: 42_000, h: 15_000 }],
        colors: vec![BlockColor::Red],
    };
    let hit = resolve_blocks(&mut ball, &mut f);
    assert_eq!(hit, Some(0));
    assert_eq!(ball.vx, -202);
    assert_eq!(ball.vy, 202);
    assert!(f.is_empty());
    assert_eq!(f.colors.len(), 0);
}

#[test]
fn block_hit_far_side_keeps_x_velocity() {
    // Rightward ball right of the midpoint: only the vertical component
    // reflects.
    let mut ball = Ball { x: 30_000, y: 60_000, vx: 200, vy: -200 };
    let mut f = BlockField {
        blocks: vec![Block { x: 0, y: 50_000, w: 42_000, h: 15_000 }],
        colors: vec![BlockColor::Red],
    };
    let hit = resolve_blocks(&mut ball, &mut f);
    assert_eq!(hit, Some(0));
    assert_eq!(ball.vx, 200);
    assert_eq!(ball.vy, 202);
}

#[test]
fn no_block_overlap_changes_nothing() {
    let mut ball = Ball { x: 315_000, y: 175_000, vx: 200, vy: -200 };
    let mut f = BlockField::new();
    let hit = resolve_blocks(&mut ball, &mut f);
    assert_eq!(hit, None);
    assert_eq!(ball, Ball { x: 315_000, y: 175_000, vx: 200, vy: -200 });
    assert_eq!(f.blocks.len(), 90);
}

#[test]
fn paddle_contact_above_limit_reflects_y() {
    // Ball bottom 341 units is within the trigger zone and at or above
    // the 342.5 reflect limit: the vertical component reflects.
    let mut ball = Ball { x: 320_000, y: 331_000, vx: 200, vy: 200 };
    let paddle = Paddle { x: 300_000, speed: 0 };
    let bounce = resolve_paddle(&mut ball, &paddle);
    assert!(bounce);
    assert_eq!(ball.vy, -202);
}

#[test]
fn paddle_graze_below_limit_keeps_y_velocity() {
    // Ball bottom 345 units triggers the contact but lies below the
    // 342.5 reflect limit: the vertical velocity is untouched that tick.
    let mut ball = Ball { x: 320_000, y: 335_000, vx: 200, vy: 200 };
    let paddle = Paddle { x: 300_000, speed: 0 };
    let bounce = resolve_paddle(&mut ball, &paddle);
    assert!(bounce);
    assert_eq!(ball.vy, 200);
    // The ball center 325 is left of the paddle midpoint 342, so the
    // horizontal component still reflects.
    assert_eq!(ball.vx, -202);
}

#[test]
fn paddle_contact_right_of_midpoint_keeps_x_for_rightward_ball() {
    let mut ball = Ball { x: 350_000, y: 331_000, vx: 200, vy: 200 };
    let paddle = Paddle { x: 300_000, speed: 0 };
    let bounce = resolve_paddle(&mut ball, &paddle);
    assert!(bounce);
    assert_eq!(ball.vx, 200);
    assert_eq!(ball.vy, -202);
}

#[test]
fn no_paddle_contact_changes_nothing() {
    let mut ball = Ball { x: 100_000, y: 100_000, vx: 200, vy: 200 };
    let paddle = Paddle { x: 300_000, speed: 0 };
    let bounce = resolve_paddle(&mut ball, &paddle);
    assert!(!bounce);
    assert_eq!(ball, Ball { x: 100_000, y: 100_000, vx: 200, vy: 200 });
}

#[test]
fn repeated_reflections_keep_amplifying() {
    // 200 -> 202 -> 204 -> 206: each reflection flips the sign and grows
    // the magnitude by one percent, rounded down in milli-units.
    let mut ball = Ball { x: 100_000, y: 0, vx: 200, vy: -200 };
    resolve_edges(&mut ball);
    assert_eq!(ball.vy, 202);
    ball.y = 0;
    ball.vy = -202;
    resolve_edges(&mut ball);
    assert_eq!(ball.vy, 204);
    ball.y = 0;
    ball.vy = -204;
    resolve_edges(&mut ball);
    assert_eq!(ball.vy, 206);
}
