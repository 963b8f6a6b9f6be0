use breakout::ball::Ball;
use breakout::blocks::{Block, BlockColor, BlockField};

#[test]
fn grid_has_ninety_blocks_in_lockstep() {
    let f = BlockField::new();
    assert_eq!(f.blocks.len(), 90);
    assert_eq!(f.colors.len(), 90);
}

#[test]
fn grid_positions_are_row_major_with_zero_gaps() {
    let f = BlockField::new();
    assert_eq!(f.blocks[0], Block { x: 0, y: 0, w: 42_000, h: 15_000 });
    assert_eq!(f.blocks[14], Block { x: 588_000, y: 0, w: 42_000, h: 15_000 });
    // Second row, second column.
    assert_eq!(f.blocks[16], Block { x: 42_000, y: 15_000, w: 42_000, h: 15_000 });
    // Last block: row 5, column 14.
    assert_eq!(f.blocks[89], Block { x: 588_000, y: 75_000, w: 42_000, h: 15_000 });
}

#[test]
fn grid_colors_cycle_over_the_palette() {
    let f = BlockField::new();
    assert_eq!(f.colors[0], BlockColor::Red);
    assert_eq!(f.colors[1], BlockColor::Green);
    assert_eq!(f.colors[2], BlockColor::Blue);
    assert_eq!(f.colors[3], BlockColor::Purple);
    assert_eq!(f.colors[4], BlockColor::Red);
    assert_eq!(f.colors[89], BlockColor::Green);
}

#[test]
fn find_collision_returns_first_stored_overlap() {
    // Two blocks both overlapping the ball's box: the lower index wins.
    let f = BlockField {
        blocks: vec![
            Block { x: 0, y: 50_000, w: 42_000, h: 15_000 },
            Block { x: 0, y: 55_000, w: 42_000, h: 15_000 },
        ],
        colors: vec![BlockColor::Red, BlockColor::Green],
    };
    let ball = Ball { x: 10_000, y: 60_000, vx: 200, vy: -200 };
    assert_eq!(f.find_collision(&ball), Some(0));
}

#[test]
fn find_collision_reports_no_overlap() {
    let f = BlockField::new();
    // The starting ball is far below every block of the grid.
    let ball = Ball { x: 315_000, y: 175_000, vx: 200, vy: -200 };
    assert_eq!(f.find_collision(&ball), None);
}

#[test]
fn remove_at_deletes_the_same_index_from_both_sequences() {
    let mut f = BlockField::new();
    let second = f.blocks[1];
    f.remove_at(0);
    assert_eq!(f.blocks.len(), 89);
    assert_eq!(f.colors.len(), 89);
    assert_eq!(f.blocks[0], second);
    assert_eq!(f.colors[0], BlockColor::Green);
}

#[test]
fn emptiness_query_tracks_removals() {
    let mut f = BlockField {
        blocks: vec![Block { x: 0, y: 0, w: 42_000, h: 15_000 }],
        colors: vec![BlockColor::Red],
    };
    assert!(!f.is_empty());
    f.remove_at(0);
    assert!(f.is_empty());
    assert_eq!(f.len(), 0);
}
