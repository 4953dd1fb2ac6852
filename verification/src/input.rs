//! The mapping from raw key and mouse state to the two per-tick intents:
//! paddle movement and ball launch.

use vstd::prelude::*;

verus! {

/// Raw input snapshot for one tick.  The cursor position, when present, is
/// the window x coordinate in sub-units (origin at the window's left edge).
#[derive(Clone, Copy, Debug)]
pub struct RawInput {
    pub left_down: bool,
    pub right_down: bool,
    pub space_down: bool,
    pub fire_clicked: bool,
    pub cursor_x: Option<i64>,
}

/// Engine-agnostic intents for one tick.
#[derive(Clone, Copy, Debug)]
pub struct Intents {
    /// Paddle direction: -1, 0 or +1.
    pub paddle_dir: i64,
    /// Cursor x in window coordinates, passed through when present.
    pub cursor_x: Option<i64>,
    /// Launch the waiting ball this tick.
    pub launch: bool,
    /// Aim the launch to the left.
    pub aim_left: bool,
}

/// Keyboard direction: the left and right keys cancel out.
pub open spec fn spec_paddle_dir(left_down: bool, right_down: bool) -> int {
    (if right_down {
        1int
    } else {
        0int
    }) - (if left_down {
        1int
    } else {
        0int
    })
}

/// A launch is requested by the space key or a fresh click of the fire
/// button.
pub open spec fn spec_launch_intent(raw: RawInput) -> bool {
    raw.space_down || raw.fire_clicked
}

/// Read one tick's raw input as intents.  Holding the left key at
/// launch time aims the launch to the left.
pub fn read_intents(raw: &RawInput) -> (it: Intents)
    ensures
        it.paddle_dir == spec_paddle_dir(raw.left_down, raw.right_down),
        it.cursor_x == raw.cursor_x,
        it.launch == spec_launch_intent(*raw),
        it.aim_left == raw.left_down,
{
    let mut dir: i64 = 0;
    if raw.left_down {
        dir = dir - 1;
    }
    if raw.right_down {
        dir = dir + 1;
    }
    Intents {
        paddle_dir: dir,
        cursor_x: raw.cursor_x,
        launch: raw.space_down || raw.fire_clicked,
        aim_left: raw.left_down,
    }
}

} // verus!
