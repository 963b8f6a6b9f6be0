//! The paddle: a bounded horizontal actor driven by directional intent.
//!
//! A step adds the current speed to the position only when the result
//! stays inside `[0, BOARD_W - PADDLE_W]`; a move that would exit the
//! bounds is skipped whole, never clamped to the edge. Releasing a
//! direction key stops the paddle only when the released key matches the
//! sign of the ongoing movement.

use vstd::prelude::*;

use crate::board::{BOARD_W, PADDLE_STEP, PADDLE_W};

verus! {

/// A directional key.
#[derive(Clone, Copy, PartialEq, Eq, Structural, Debug)]
pub enum Dir {
    Left,
    Right,
}

/// A key-down or key-up event for one directional key, delivered
/// between ticks by the input collaborator.
#[derive(Clone, Copy, PartialEq, Eq, Structural, Debug)]
pub enum KeyEvent {
    Down(Dir),
    Up(Dir),
}

/// The paddle's directional command.
#[derive(Clone, Copy, PartialEq, Eq, Structural, Debug)]
pub enum Intent {
    Left,
    Right,
    Stop,
}

/// The paddle's state in milli-units. Width, height and the vertical
/// position are fixed and live in `board`.
#[derive(Clone, Copy, PartialEq, Eq, Structural, Debug)]
pub struct Paddle {
    /// Left edge of the paddle.
    pub x: i64,
    /// Signed distance covered per tick: `-PADDLE_STEP`, `0` or
    /// `PADDLE_STEP`.
    pub speed: i64,
}

/// Mathematical view of a paddle.
pub ghost struct PaddleModel {
    pub x: int,
    pub speed: int,
}

impl View for Paddle {
    type V = PaddleModel;

    open spec fn view(&self) -> PaddleModel {
        PaddleModel { x: self.x as int, speed: self.speed as int }
    }
}

/// A paddle the simulation can carry: inside the board, speed one of
/// the three intent values.
pub open spec fn paddle_ok(p: PaddleModel) -> bool {
    &&& 0 <= p.x <= BOARD_W - PADDLE_W
    &&& (p.speed == -PADDLE_STEP || p.speed == 0 || p.speed == PADDLE_STEP)
}

/// The speed each intent sets.
pub open spec fn intent_speed(i: Intent) -> int {
    match i {
        Intent::Left => -PADDLE_STEP as int,
        Intent::Right => PADDLE_STEP as int,
        Intent::Stop => 0,
    }
}

/// One movement step: move by the current speed if the result stays in
/// bounds, otherwise stay put.
pub open spec fn step_spec(p: PaddleModel) -> PaddleModel {
    if 0 <= p.x + p.speed <= BOARD_W - PADDLE_W {
        PaddleModel { x: p.x + p.speed, ..p }
    } else {
        p
    }
}

/// A key release stops the paddle only when the released key matches
/// the sign of the ongoing movement; releasing the inactive key leaves
/// the movement alone.
pub open spec fn release_spec(p: PaddleModel, d: Dir) -> PaddleModel {
    if (d is Right && p.speed > 0) || (d is Left && p.speed < 0) {
        PaddleModel { speed: 0, ..p }
    } else {
        p
    }
}

/// What one optional key event does to the paddle between ticks.
pub open spec fn apply_event_spec(p: PaddleModel, e: Option<KeyEvent>) -> PaddleModel {
    match e {
        Option::None => p,
        Option::Some(KeyEvent::Down(Dir::Left)) => PaddleModel { speed: -PADDLE_STEP as int, ..p },
        Option::Some(KeyEvent::Down(Dir::Right)) => PaddleModel { speed: PADDLE_STEP as int, ..p },
        Option::Some(KeyEvent::Up(d)) => release_spec(p, d),
    }
}

impl Paddle {
    /// The paddle at simulation start: mid-board, idle.
    pub fn new() -> (p: Paddle)
        ensures
            p@ == (PaddleModel { x: 315_000int, speed: 0int }),
            paddle_ok(p@),
    {
        Paddle { x: 315_000, speed: 0 }
    }

    /// Set the directional intent: leftward, rightward or idle speed.
    pub fn set_intent(&mut self, i: Intent)
        ensures
            final(self)@ == (PaddleModel { speed: intent_speed(i), ..old(self)@ }),
    {
        self.speed = match i {
            Intent::Left => -PADDLE_STEP,
            Intent::Right => PADDLE_STEP,
            Intent::Stop => 0,
        };
    }

    /// Apply one optional key event: a press sets the intent, a release
    /// stops the paddle only if it matches the movement's sign.
    pub fn apply_event(&mut self, e: Option<KeyEvent>)
        ensures
            final(self)@ == apply_event_spec(old(self)@, e),
    {
        match e {
            Option::None => (),
            Option::Some(KeyEvent::Down(Dir::Left)) => self.speed = -PADDLE_STEP,
            Option::Some(KeyEvent::Down(Dir::Right)) => self.speed = PADDLE_STEP,
            Option::Some(KeyEvent::Up(d)) => {
                if (matches!(d, Dir::Right) && self.speed > 0)
                    || (matches!(d, Dir::Left) && self.speed < 0) {
                    self.speed = 0;
                }
            },
        }
    }

    /// One movement step, skipped whole when it would exit the bounds.
    pub fn step(&mut self)
        requires
            paddle_ok(old(self)@),
        ensures
            final(self)@ == step_spec(old(self)@),
            paddle_ok(final(self)@),
    {
        let target: i64 = self.x + self.speed;
        if 0 <= target && target <= BOARD_W - PADDLE_W {
            self.x = target;
        }
    }
}

/// Applying any key event keeps the paddle well formed: the position is
/// untouched and the speed stays one of the three intent values.
pub proof fn lemma_apply_event_keeps_ok(p: PaddleModel, e: Option<KeyEvent>)
    requires
        paddle_ok(p),
    ensures
        paddle_ok(apply_event_spec(p, e)),
        apply_event_spec(p, e).x == p.x,
{
}

/// A movement step keeps the paddle inside the board, whatever the
/// intent.
pub proof fn lemma_step_keeps_ok(p: PaddleModel)
    requires
        paddle_ok(p),
    ensures
        paddle_ok(step_spec(p)),
{
}

} // verus!
