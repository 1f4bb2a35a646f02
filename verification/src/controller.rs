//! The host-controller abstraction: the virtual buttons every console
//! front-end shares, and the mapping from analog-stick positions to
//! directional buttons.

use vstd::prelude::*;

verus! {

/// The deadzone below which a stick axis maps to no direction.
pub const STICK_DEADZONE: i16 = 9_000;

/// A controller button in console-independent terms.
#[derive(Clone, Copy, Debug, PartialEq, Eq, Structural, Hash)]
pub enum VirtualButton {
    Up,
    Down,
    Left,
    Right,
    A,
    B,
    X,
    Y,
    L,
    R,
    Start,
    Select,
}

/// The directional buttons a stick position holds: left or right past
/// the horizontal deadzone, up or down past the vertical one.
#[derive(Clone, Copy, Debug, PartialEq, Eq, Structural)]
pub struct StickDirections {
    pub left: bool,
    pub right: bool,
    pub up: bool,
    pub down: bool,
}

/// Maps a stick position to held directions: at most one per axis, and
/// none inside the deadzone.
pub fn axis_to_buttons(x: i16, y: i16) -> (r: StickDirections)
    ensures
        r.left == (x <= -STICK_DEADZONE),
        r.right == (!(x <= -STICK_DEADZONE) && x >= STICK_DEADZONE),
        r.up == (y <= -STICK_DEADZONE),
        r.down == (!(y <= -STICK_DEADZONE) && y >= STICK_DEADZONE),
        !(r.left && r.right),
        !(r.up && r.down),
{
    let left = x <= -STICK_DEADZONE;
    let right = !left && x >= STICK_DEADZONE;
    let up = y <= -STICK_DEADZONE;
    let down = !up && y >= STICK_DEADZONE;
    StickDirections { left, right, up, down }
}

} // verus!
