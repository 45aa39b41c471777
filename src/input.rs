//! User input state, and the steering it asks of the player's ship.

use vstd::prelude::*;

verus! {

/// State of the keyboard, representing immediate inputs.
#[derive(Debug, Clone, Copy, PartialEq, Eq)]
pub struct KeyStates {
    /// Up cursor key.
    pub up: bool,
    /// Down cursor key.
    pub down: bool,
    /// Left cursor key.
    pub left: bool,
    /// Right cursor key.
    pub right: bool,
    /// A key.
    pub a: bool,
    /// D key.
    pub d: bool,
}

/// No key pressed.
pub open spec fn no_keys() -> KeyStates {
    KeyStates { up: false, down: false, left: false, right: false, a: false, d: false }
}

impl Default for KeyStates {
    fn default() -> (r: KeyStates)
        ensures
            r == no_keys(),
    {
        KeyStates { up: false, down: false, left: false, right: false, a: false, d: false }
    }
}

/// Current input state.
#[derive(Debug, Clone, Copy, PartialEq, Eq)]
pub struct Inputs {
    /// Current keyboard state.
    pub keys: KeyStates,
}

impl Inputs {
    /// The inputs that a window reports: the keys as pressed while it has
    /// the focus, and no key while it has not.
    pub fn with_focus(has_focus: bool, keys: KeyStates) -> (r: Inputs)
        ensures
            r.keys == (if has_focus { keys } else { no_keys() }),
    {
        let keys = if has_focus {
            keys
        } else {
            KeyStates::default()
        };
        Inputs { keys }
    }
}

/// The direction, each of -1, 0 or 1 per axis, in which the player pushes:
/// x grows to the right, y grows downwards, and spin grows clockwise.
#[derive(Debug, Clone, Copy, PartialEq, Eq)]
pub struct Steering {
    /// Horizontal thrust: `right` minus `left`.
    pub thrust_x: i8,
    /// Vertical thrust: `down` minus `up`.
    pub thrust_y: i8,
    /// Torque: `d` minus `a`.
    pub spin: i8,
}

/// 1 for a pressed key, 0 for a released one.
pub open spec fn pressed(b: bool) -> int {
    if b { 1 } else { 0 }
}

/// One unit of push in the direction of `pos`, less one in that of `neg`.
pub open spec fn axis(neg: bool, pos: bool) -> int {
    pressed(pos) - pressed(neg)
}

fn axis_of(neg: bool, pos: bool) -> (r: i8)
    ensures
        r == axis(neg, pos),
{
    let mut r: i8 = 0;
    if pos {
        r = r + 1;
    }
    if neg {
        r = r - 1;
    }
    r
}

impl KeyStates {
    /// The steering that these keys ask for. Opposite keys held together
    /// cancel out.
    pub fn steering(&self) -> (r: Steering)
        ensures
            r.thrust_x == axis(self.left, self.right),
            r.thrust_y == axis(self.up, self.down),
            r.spin == axis(self.a, self.d),
    {
        Steering {
            thrust_x: axis_of(self.left, self.right),
            thrust_y: axis_of(self.up, self.down),
            spin: axis_of(self.a, self.d),
        }
    }
}

} // verus!
