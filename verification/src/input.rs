//! Logical input state for one tick.
//!
//! The host owns the input devices; the core only reads booleans for a
//! small fixed set of logical actions.

use vstd::prelude::*;

verus! {

/// Held and just-pressed flags for the logical actions of one tick.
#[derive(Clone, Copy, PartialEq, Eq, Structural, Debug)]
pub struct InputState {
    /// Move-left held.
    pub left: bool,
    /// Move-right held.
    pub right: bool,
    /// Move-up held (climbing).
    pub up: bool,
    /// Move-down held (climbing, crouching).
    pub down: bool,
    /// Jump just pressed.
    pub jump_pressed: bool,
    /// Attack just pressed.
    pub attack_pressed: bool,
    /// Mark-respawn just pressed.
    pub mark_respawn_pressed: bool,
}

impl InputState {
    /// No action held or pressed.
    pub fn idle() -> (inp: InputState)
        ensures
            inp == (InputState {
                left: false,
                right: false,
                up: false,
                down: false,
                jump_pressed: false,
                attack_pressed: false,
                mark_respawn_pressed: false,
            }),
    {
        InputState {
            left: false,
            right: false,
            up: false,
            down: false,
            jump_pressed: false,
            attack_pressed: false,
            mark_respawn_pressed: false,
        }
    }
}

/// The horizontal direction the held keys ask for: right minus left.
pub open spec fn move_dir_spec(inp: InputState) -> int {
    (if inp.right {
        1int
    } else {
        0int
    }) - (if inp.left {
        1int
    } else {
        0int
    })
}

/// The vertical climb direction the held keys ask for: up minus down.
pub open spec fn climb_dir_spec(inp: InputState) -> int {
    (if inp.up {
        1int
    } else {
        0int
    }) - (if inp.down {
        1int
    } else {
        0int
    })
}

/// The signed horizontal input direction.
pub fn move_input(inp: &InputState) -> (d: i64)
    ensures
        d == move_dir_spec(*inp),
        -1 <= d <= 1,
{
    let mut d: i64 = 0;
    if inp.left {
        d = d - 1;
    }
    if inp.right {
        d = d + 1;
    }
    d
}

/// The signed vertical climb direction.
pub fn climb_input(inp: &InputState) -> (d: i64)
    ensures
        d == climb_dir_spec(*inp),
        -1 <= d <= 1,
{
    let mut d: i64 = 0;
    if inp.up {
        d = d + 1;
    }
    if inp.down {
        d = d - 1;
    }
    d
}

} // verus!
