//! The destructible block field: two lockstep parallel sequences, one
//! for geometry and one for color.
//!
//! The order of the blocks is stable, so a visual position maps one to
//! one to an index until a removal; removal deletes the same index from
//! both sequences, and the equal-length invariant is proved rather than
//! checked at run time. Blocks are only ever removed, never added.

use vstd::prelude::*;

use crate::ball::BallModel;
use crate::board::{BALL_SIDE, BLOCK_COLS, BLOCK_H, BLOCK_ROWS, BLOCK_W, BOARD_H, BOARD_W};

verus! {

/// An axis-aligned block rectangle in milli-units.
#[derive(Clone, Copy, PartialEq, Eq, Structural, Debug)]
pub struct Block {
    /// Left edge.
    pub x: i64,
    /// Top edge.
    pub y: i64,
    /// Width.
    pub w: i64,
    /// Height.
    pub h: i64,
}

/// The color tag of a block: one entry of the four-color palette, with
/// no meaning beyond rendering.
#[derive(Clone, Copy, PartialEq, Eq, Structural, Debug)]
pub enum BlockColor {
    Red,
    Green,
    Blue,
    Purple,
}

/// The block field: geometry and colors kept in lockstep.
pub struct BlockField {
    /// Block rectangles, in stable order.
    pub blocks: Vec<Block>,
    /// The color of each block, at the same index.
    pub colors: Vec<BlockColor>,
}

/// Mathematical view of a block field.
#[verifier::ext_equal]
pub ghost struct FieldModel {
    pub blocks: Seq<Block>,
    pub colors: Seq<BlockColor>,
}

impl View for BlockField {
    type V = FieldModel;

    open spec fn view(&self) -> FieldModel {
        FieldModel { blocks: self.blocks@, colors: self.colors@ }
    }
}

/// A block the simulation can carry: a non-empty rectangle inside the
/// board.
pub open spec fn block_ok(b: Block) -> bool {
    &&& 0 <= b.x && b.x + b.w <= BOARD_W
    &&& 0 <= b.y && b.y + b.h <= BOARD_H
    &&& 0 < b.w && 0 < b.h
}

/// A block field the simulation can carry: the two parallel sequences
/// have equal length and every block lies inside the board.
pub open spec fn field_ok(f: FieldModel) -> bool {
    &&& f.blocks.len() == f.colors.len()
    &&& forall|i: int| 0 <= i < f.blocks.len() ==> block_ok(#[trigger] f.blocks[i])
}

/// The axis-aligned overlap test between a block and the ball's current
/// box: block-left at or left of ball-right, ball-left at or left of
/// block-right, block-bottom at or below ball-top, ball-bottom at or
/// below block-top. The test looks at the current box only; there is no
/// swept collision, so a fast ball can tunnel through a block edge.
pub open spec fn overlaps(b: Block, ball: BallModel) -> bool {
    &&& b.x <= ball.x + BALL_SIDE
    &&& ball.x <= b.x + b.w
    &&& b.y + b.h >= ball.y
    &&& ball.y + BALL_SIDE >= b.y
}

/// The first index at or after `k` whose block overlaps the ball, if
/// any.
pub open spec fn first_hit_from(blocks: Seq<Block>, ball: BallModel, k: int) -> Option<int>
    decreases blocks.len() - k,
{
    if k < 0 || k >= blocks.len() {
        None
    } else if overlaps(blocks[k], ball) {
        Some(k)
    } else {
        first_hit_from(blocks, ball, k + 1)
    }
}

/// The first index whose block overlaps the ball, if any: the stored
/// order decides which of several geometric hits counts.
pub open spec fn first_hit(blocks: Seq<Block>, ball: BallModel) -> Option<int> {
    first_hit_from(blocks, ball, 0)
}

/// What `first_hit_from` returns: an overlapping index after a prefix
/// of non-overlapping ones, or nothing when no block from `k` on
/// overlaps.
pub proof fn lemma_first_hit_from_props(blocks: Seq<Block>, ball: BallModel, k: int)
    requires
        0 <= k <= blocks.len(),
    ensures
        match first_hit_from(blocks, ball, k) {
            Some(i) => {
                &&& k <= i < blocks.len()
                &&& overlaps(blocks[i], ball)
                &&& forall|j: int| k <= j < i ==> !overlaps(#[trigger] blocks[j], ball)
            },
            None => forall|j: int| k <= j < blocks.len() ==> !overlaps(#[trigger] blocks[j], ball),
        },
    decreases blocks.len() - k,
{
    if k < blocks.len() && !overlaps(blocks[k], ball) {
        lemma_first_hit_from_props(blocks, ball, k + 1);
    }
}

/// What `first_hit` returns, in terms of the overlap test alone.
pub proof fn lemma_first_hit_props(blocks: Seq<Block>, ball: BallModel)
    ensures
        match first_hit(blocks, ball) {
            Some(i) => {
                &&& 0 <= i < blocks.len()
                &&& overlaps(blocks[i], ball)
                &&& forall|j: int| 0 <= j < i ==> !overlaps(#[trigger] blocks[j], ball)
            },
            None => forall|j: int| 0 <= j < blocks.len() ==> !overlaps(#[trigger] blocks[j], ball),
        },
{
    lemma_first_hit_from_props(blocks, ball, 0);
}

/// The block of the initial grid at position `n`, counted row by row:
/// fifteen 42x15 columns to a row, six rows from the top, zero gaps.
pub open spec fn grid_block(n: int) -> Block {
    Block {
        x: ((n % 15) * BLOCK_W) as i64,
        y: ((n / 15) * BLOCK_H) as i64,
        w: BLOCK_W,
        h: BLOCK_H,
    }
}

/// The four-color palette, cycled over the grid positions.
pub open spec fn palette(n: int) -> BlockColor {
    if n % 4 == 0 {
        BlockColor::Red
    } else if n % 4 == 1 {
        BlockColor::Green
    } else if n % 4 == 2 {
        BlockColor::Blue
    } else {
        BlockColor::Purple
    }
}

/// The full initial field: ninety blocks in a 15 x 6 grid with the
/// palette cycled over them.
pub open spec fn grid_model() -> FieldModel {
    FieldModel {
        blocks: Seq::new(90, |n: int| grid_block(n)),
        colors: Seq::new(90, |n: int| palette(n)),
    }
}

impl BlockField {
    /// Build the initial grid: 15 columns by 6 rows of 42x15 blocks
    /// with no gaps, colors cycling through the palette.
    pub fn new() -> (f: BlockField)
        ensures
            f@ == grid_model(),
            field_ok(f@),
            f@.blocks.len() == 90,
    {
        let total: usize = BLOCK_COLS * BLOCK_ROWS;
        let mut blocks: Vec<Block> = Vec::new();
        let mut colors: Vec<BlockColor> = Vec::new();
        let mut n: usize = 0;
        while n < total
            invariant
                total == 90,
                n <= total,
                blocks@.len() == n,
                colors@.len() == n,
                forall|i: int| 0 <= i < n ==> blocks@[i] == grid_block(i),
                forall|i: int| 0 <= i < n ==> colors@[i] == palette(i),
            decreases total - n,
        {
            let col: usize = n % BLOCK_COLS;
            let row: usize = n / BLOCK_COLS;
            assert(col < 15);
            assert(row < 6) by {
                assert(n < 90);
            };
            blocks.push(Block {
                x: (col as i64) * BLOCK_W,
                y: (row as i64) * BLOCK_H,
                w: BLOCK_W,
                h: BLOCK_H,
            });
            let c: usize = n % 4;
            if c == 0 {
                colors.push(BlockColor::Red);
            } else if c == 1 {
                colors.push(BlockColor::Green);
            } else if c == 2 {
                colors.push(BlockColor::Blue);
            } else {
                colors.push(BlockColor::Purple);
            }
            n = n + 1;
        }
        let f = BlockField { blocks, colors };
        proof {
            assert(f@.blocks =~= grid_model().blocks);
            assert(f@.colors =~= grid_model().colors);
            assert forall|i: int| 0 <= i < f@.blocks.len() implies block_ok(#[trigger] f@.blocks[i]) by {
                assert(f@.blocks[i] == grid_block(i));
                assert(0 <= i % 15 < 15 && 0 <= i / 15 < 6);
            };
        }
        f
    }

    /// How many blocks remain.
    pub fn len(&self) -> (n: usize)
        ensures
            n == self@.blocks.len(),
    {
        self.blocks.len()
    }

    /// Whether the field has been cleared.
    pub fn is_empty(&self) -> (e: bool)
        ensures
            e == (self@.blocks.len() == 0),
    {
        self.blocks.len() == 0
    }

    /// The index of the first stored block whose rectangle overlaps the
    /// ball's box, if any.
    pub fn find_collision(&self, ball: &crate::ball::Ball) -> (r: Option<usize>)
        requires
            crate::ball::ball_ok(ball@),
            field_ok(self@),
        ensures
            match r {
                Some(i) => first_hit(self@.blocks, ball@) == Some(i as int),
                None => first_hit(self@.blocks, ball@) is None,
            },
    {
        let len: usize = self.blocks.len();
        let mut k: usize = 0;
        while k < len
            invariant
                crate::ball::ball_ok(ball@),
                field_ok(self@),
                len == self@.blocks.len(),
                k <= len,
                first_hit(self@.blocks, ball@) == first_hit_from(self@.blocks, ball@, k as int),
            decreases len - k,
        {
            let b = self.blocks[k];
            if b.x <= ball.x + BALL_SIDE
                && ball.x <= b.x + b.w
                && b.y + b.h >= ball.y
                && ball.y + BALL_SIDE >= b.y {
                assert(overlaps(self@.blocks[k as int], ball@));
                return Some(k);
            }
            assert(!overlaps(self@.blocks[k as int], ball@));
            k = k + 1;
        }
        None
    }

    /// Remove the block at `i` and its color in lockstep; the parallel
    /// sequences keep equal length by construction.
    pub fn remove_at(&mut self, i: usize)
        requires
            field_ok(old(self)@),
            i < old(self)@.blocks.len(),
        ensures
            final(self)@.blocks == old(self)@.blocks.remove(i as int),
            final(self)@.colors == old(self)@.colors.remove(i as int),
            field_ok(final(self)@),
    {
        self.blocks.remove(i);
        self.colors.remove(i);
        proof {
            assert forall|j: int| 0 <= j < self@.blocks.len()
                implies block_ok(#[trigger] self@.blocks[j]) by {
                if j < i {
                    assert(self@.blocks[j] == old(self)@.blocks[j]);
                } else {
                    assert(self@.blocks[j] == old(self)@.blocks[j + 1]);
                }
            };
        }
    }
}

} // verus!
