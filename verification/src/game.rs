//! The game loop: per-tick ordering, terminal detection and the state
//! the presentation layer reads.
//!
//! One tick runs, in this fixed order: the exclusive board-edge chain
//! (with its possible early loss), block collision, paddle collision,
//! paddle movement, ball integration, then the input intent for the
//! next tick and the win check. `spec_tick` states the whole step as a
//! mathematical function, and `tick` is proved to compute exactly it —
//! the trajectory from a given start is a pure function of the tick
//! count and the inputs.

use vstd::prelude::*;

use crate::ball::{ball_ok, Ball, BallModel};
use crate::blocks::{field_ok, first_hit, grid_model, BlockField, FieldModel};
use crate::board::{BOARD_W, PADDLE_W};
use crate::collision::{
    block_phase, edge_phase, paddle_phase, resolve_blocks, resolve_edges, resolve_paddle,
    wall_x_hit, floor_hit,
};
use crate::paddle::{
    apply_event_spec, lemma_apply_event_keeps_ok, lemma_step_keeps_ok, paddle_ok, step_spec,
    KeyEvent, Paddle, PaddleModel,
};

verus! {

/// The loop's state: running, or one of the two terminal outcomes.
#[derive(Clone, Copy, PartialEq, Eq, Structural, Debug)]
pub enum Status {
    Running,
    /// All blocks cleared.
    Won,
    /// The ball passed the floor.
    Lost,
}

/// The whole simulation state. The presentation layer reads these
/// fields as its per-tick snapshot and never writes them; input comes
/// in through `tick`'s event argument.
pub struct Game {
    pub ball: Ball,
    pub paddle: Paddle,
    pub field: BlockField,
    pub status: Status,
}

/// Mathematical view of the whole game.
#[verifier::ext_equal]
pub ghost struct GameModel {
    pub ball: BallModel,
    pub paddle: PaddleModel,
    pub field: FieldModel,
    pub status: Status,
}

impl View for Game {
    type V = GameModel;

    open spec fn view(&self) -> GameModel {
        GameModel {
            ball: self.ball@,
            paddle: self.paddle@,
            field: self.field@,
            status: self.status,
        }
    }
}

/// A game state the simulation can carry.
pub open spec fn game_ok(g: GameModel) -> bool {
    &&& ball_ok(g.ball)
    &&& paddle_ok(g.paddle)
    &&& field_ok(g.field)
}

/// The fixed starting state: the full grid, ball at board center
/// moving up-right at 0.2 units per tick, paddle idle at mid-board.
pub open spec fn initial_model() -> GameModel {
    GameModel {
        ball: BallModel { x: 315_000, y: 175_000, vx: 200, vy: -200 },
        paddle: PaddleModel { x: 315_000, speed: 0 },
        field: grid_model(),
        status: Status::Running,
    }
}

/// One tick as a mathematical function of the state and the optional
/// key event, returning the next state and whether the bounce cue
/// fires. A terminal state is left untouched. While running: the edge
/// chain first (a floor hit ends the tick at once with everything else
/// unchanged), then block collision, paddle collision, paddle step,
/// ball integration, the input event, and last the win check.
pub open spec fn spec_tick(g: GameModel, input: Option<KeyEvent>) -> (GameModel, bool) {
    if !(g.status is Running) {
        (g, false)
    } else {
        let e = edge_phase(g.ball);
        if e.1 {
            (GameModel { status: Status::Lost, ..g }, false)
        } else {
            let bp = block_phase(e.0, g.field);
            let pp = paddle_phase(bp.0, g.paddle);
            let stepped = step_spec(g.paddle);
            let moved = crate::ball::integrate_spec(pp.0);
            let intent = apply_event_spec(stepped, input);
            let status = if bp.1.blocks.len() == 0 {
                Status::Won
            } else {
                Status::Running
            };
            (
                GameModel {
                    ball: moved,
                    paddle: intent,
                    field: bp.1,
                    status: status,
                },
                pp.1,
            )
        }
    }
}

/// The state after `n` ticks from `g`, all with the same input —
/// a pure function of the start and the tick count.
pub open spec fn run_model(g: GameModel, input: Option<KeyEvent>, n: nat) -> GameModel
    decreases n,
{
    if n == 0 {
        g
    } else {
        spec_tick(run_model(g, input, (n - 1) as nat), input).0
    }
}

/// One tick keeps the state well formed; in particular the paddle
/// never leaves `[0, BOARD_W - PADDLE_W]`.
pub proof fn lemma_tick_keeps_ok(g: GameModel, input: Option<KeyEvent>)
    requires
        game_ok(g),
    ensures
        game_ok(spec_tick(g, input).0),
        0 <= spec_tick(g, input).0.paddle.x <= BOARD_W - PADDLE_W,
{
    if g.status is Running && !edge_phase(g.ball).1 {
        let e = edge_phase(g.ball);
        crate::ball::lemma_reflect_vel_ok(g.ball.vx);
        crate::ball::lemma_reflect_vel_ok(g.ball.vy);
        let bp = block_phase(e.0, g.field);
        crate::blocks::lemma_first_hit_props(g.field.blocks, e.0);
        crate::ball::lemma_reflect_vel_ok(e.0.vx);
        crate::ball::lemma_reflect_vel_ok(e.0.vy);
        crate::ball::lemma_reflect_vel_ok(bp.0.vx);
        crate::ball::lemma_reflect_vel_ok(bp.0.vy);
        let pp = paddle_phase(bp.0, g.paddle);
        crate::ball::lemma_reflect_vel_ok(pp.0.vx);
        crate::ball::lemma_reflect_vel_ok(pp.0.vy);
        lemma_step_keeps_ok(g.paddle);
        lemma_apply_event_keeps_ok(step_spec(g.paddle), input);
        if first_hit(g.field.blocks, e.0) is Some {
            let i = first_hit(g.field.blocks, e.0)->0;
            assert forall|j: int| 0 <= j < bp.1.blocks.len()
                implies crate::blocks::block_ok(#[trigger] bp.1.blocks[j]) by {
                if j < i {
                    assert(bp.1.blocks[j] == g.field.blocks[j]);
                } else {
                    assert(bp.1.blocks[j] == g.field.blocks[j + 1]);
                }
            };
        }
    }
}

/// Any number of ticks keeps the state well formed: the paddle is in
/// bounds at every tick of a run.
pub proof fn lemma_run_keeps_ok(g: GameModel, input: Option<KeyEvent>, n: nat)
    requires
        game_ok(g),
    ensures
        game_ok(run_model(g, input, n)),
        0 <= run_model(g, input, n).paddle.x <= BOARD_W - PADDLE_W,
    decreases n,
{
    if n > 0 {
        lemma_run_keeps_ok(g, input, (n - 1) as nat);
        lemma_tick_keeps_ok(run_model(g, input, (n - 1) as nat), input);
    }
}

/// The block count never grows across a tick, and the two parallel
/// sequences keep equal length.
pub proof fn lemma_blocks_monotone(g: GameModel, input: Option<KeyEvent>)
    requires
        game_ok(g),
    ensures
        spec_tick(g, input).0.field.blocks.len() <= g.field.blocks.len(),
        spec_tick(g, input).0.field.colors.len() == spec_tick(g, input).0.field.blocks.len(),
{
    lemma_tick_keeps_ok(g, input);
    if g.status is Running && !edge_phase(g.ball).1 {
        crate::blocks::lemma_first_hit_props(g.field.blocks, edge_phase(g.ball).0);
    }
}

/// Over a whole run the block count is monotonically non-increasing:
/// later ticks never have more blocks than earlier ones.
pub proof fn lemma_run_blocks_monotone(g: GameModel, input: Option<KeyEvent>, n: nat, m: nat)
    requires
        game_ok(g),
        n <= m,
    ensures
        run_model(g, input, m).field.blocks.len() <= run_model(g, input, n).field.blocks.len(),
    decreases m,
{
    if n < m {
        lemma_run_blocks_monotone(g, input, n, (m - 1) as nat);
        lemma_run_keeps_ok(g, input, (m - 1) as nat);
        lemma_blocks_monotone(run_model(g, input, (m - 1) as nat), input);
    }
}

/// A terminal state is stable: ticking a won or lost game changes
/// nothing and fires no cue.
pub proof fn lemma_terminal_sticks(g: GameModel, input: Option<KeyEvent>)
    requires
        !(g.status is Running),
    ensures
        spec_tick(g, input) == (g, false),
{
}

/// Loss detection: a running game whose ball bottom has reached the
/// floor, and which the side walls do not claim first (the edge chain
/// is exclusive), turns `Lost` with the ball, paddle and blocks left
/// exactly as they were — the tick does no further processing.
pub proof fn lemma_floor_loss(g: GameModel, input: Option<KeyEvent>)
    requires
        game_ok(g),
        g.status is Running,
        !wall_x_hit(g.ball),
        floor_hit(g.ball),
    ensures
        spec_tick(g, input).0 == (GameModel { status: Status::Lost, ..g }),
        spec_tick(g, input).1 == false,
{
    assert(g.ball.y + crate::board::BALL_SIDE >= crate::board::BOARD_H);
    assert(!crate::collision::ceiling_hit(g.ball));
}

/// Win detection: when the edge chain does not end the tick and the
/// last remaining block is hit, removing it turns the game `Won` that
/// same tick.
pub proof fn lemma_win_on_last_block(g: GameModel, input: Option<KeyEvent>)
    requires
        game_ok(g),
        g.status is Running,
        !edge_phase(g.ball).1,
        g.field.blocks.len() == 1,
        first_hit(g.field.blocks, edge_phase(g.ball).0) is Some,
    ensures
        spec_tick(g, input).0.status is Won,
{
    crate::blocks::lemma_first_hit_props(g.field.blocks, edge_phase(g.ball).0);
}

impl Game {
    /// The simulation at its fixed starting configuration.
    pub fn new() -> (g: Game)
        ensures
            g@ == initial_model(),
            game_ok(g@),
    {
        let g = Game {
            ball: Ball::new(),
            paddle: Paddle::new(),
            field: BlockField::new(),
            status: Status::Running,
        };
        proof {
            assert(g@ =~= initial_model());
        }
        g
    }

    /// Advance the simulation by one tick, applying the optional key
    /// event at the tick's end; returns whether the bounce cue should
    /// play. Computes exactly `spec_tick`.
    pub fn tick(&mut self, input: Option<KeyEvent>) -> (bounce: bool)
        requires
            game_ok(old(self)@),
        ensures
            final(self)@ == spec_tick(old(self)@, input).0,
            bounce == spec_tick(old(self)@, input).1,
            game_ok(final(self)@),
    {
        proof {
            lemma_tick_keeps_ok(self@, input);
        }
        match self.status {
            Status::Running => {},
            _ => {
                proof {
                    assert(self@ =~= spec_tick(old(self)@, input).0);
                }
                return false;
            },
        }
        let lost = resolve_edges(&mut self.ball);
        if lost {
            self.status = Status::Lost;
            proof {
                assert(self@ =~= spec_tick(old(self)@, input).0);
            }
            return false;
        }
        let _hit = resolve_blocks(&mut self.ball, &mut self.field);
        let bounce = resolve_paddle(&mut self.ball, &self.paddle);
        self.paddle.step();
        self.ball.integrate();
        self.paddle.apply_event(input);
        if self.field.is_empty() {
            self.status = Status::Won;
        }
        proof {
            assert(self@ =~= spec_tick(old(self)@, input).0);
        }
        bounce
    }

    /// Advance the simulation by `n` ticks with the same input each
    /// tick. The result is `run_model` of the start — the trajectory is
    /// a pure function of the starting state, the input and the tick
    /// count, which makes unattended runs fully deterministic.
    pub fn run_ticks(&mut self, input: Option<KeyEvent>, n: u64)
        requires
            game_ok(old(self)@),
        ensures
            final(self)@ == run_model(old(self)@, input, n as nat),
            game_ok(final(self)@),
    {
        let ghost g0 = self@;
        let mut i: u64 = 0;
        while i < n
            invariant
                game_ok(self@),
                i <= n,
                self@ == run_model(g0, input, i as nat),
            decreases n - i,
        {
            self.tick(input);
            i = i + 1;
        }
    }
}

} // verus!
