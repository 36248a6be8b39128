//! The player's keys: which way to walk and where the lantern points.
//!
//! Directions are given by axis, each of -1, 0 or 1. Up and right are
//! positive. Scaling a direction to unit length is left to the caller.

use vstd::prelude::*;

verus! {

/// Which of the four movement keys are held down.
#[derive(Clone, Copy, PartialEq, Eq, Structural, Debug)]
pub struct Keys {
    pub w: bool,
    pub a: bool,
    pub s: bool,
    pub d: bool,
}

/// A direction by axis.
#[derive(Clone, Copy, PartialEq, Eq, Structural, Debug)]
pub struct Axes {
    pub x: i8,
    pub y: i8,
}

/// The way the player walks.
#[derive(Clone, Copy, PartialEq, Eq, Structural, Debug)]
pub struct MoveDirection(pub Axes);

/// The way the lantern points.
#[derive(Clone, Copy, PartialEq, Eq, Structural, Debug)]
pub struct LightDirection(pub Axes);

impl Keys {
    /// Whether any of the four keys is held.
    pub open spec fn any(self) -> bool {
        self.w || self.a || self.s || self.d
    }

    /// The way to walk: opposite keys cancel each other.
    pub open spec fn walk(self) -> Axes {
        Axes {
            x: ((if self.d {
                1int
            } else {
                0int
            }) - (if self.a {
                1int
            } else {
                0int
            })) as i8,
            y: ((if self.w {
                1int
            } else {
                0int
            }) - (if self.s {
                1int
            } else {
                0int
            })) as i8,
        }
    }

    /// The way to point the lantern: of two opposite keys, left wins over
    /// right and up over down.
    pub open spec fn point(self) -> Axes {
        Axes {
            x: if self.a {
                -1i8
            } else if self.d {
                1i8
            } else {
                0i8
            },
            y: if self.w {
                1i8
            } else if self.s {
                -1i8
            } else {
                0i8
            },
        }
    }
}

/// Sets the walking direction anew whenever a movement key went down or up
/// this frame, and leaves it alone otherwise.
pub fn movement_input(changed: bool, held: &Keys, direction: &mut MoveDirection)
    ensures
        final(direction).0 == if changed {
            held.walk()
        } else {
            old(direction).0
        },
{
    if changed {
        let mut x: i8 = 0;
        if held.a {
            x = x - 1;
        }
        if held.d {
            x = x + 1;
        }
        let mut y: i8 = 0;
        if held.s {
            y = y - 1;
        }
        if held.w {
            y = y + 1;
        }
        direction.0 = Axes { x, y };
    }
}

/// Points the lantern the way of the keys held, and leaves it alone while
/// none is held.
pub fn lantern_direction(held: &Keys, direction: &mut LightDirection)
    ensures
        final(direction).0 == if held.any() {
            held.point()
        } else {
            old(direction).0
        },
{
    if held.w || held.a || held.s || held.d {
        let mut x: i8 = 0;
        let mut y: i8 = 0;
        if held.a || held.d {
            x = if held.a {
                -1
            } else {
                1
            };
        }
        if held.w || held.s {
            y = if held.w {
                1
            } else {
                -1
            };
        }
        direction.0 = Axes { x, y };
    }
}

/// Speed of the player, in thousandths of a world unit per second.
pub const PLAYER_SPEED: i32 = 20_000;

/// How far the lantern's collider sits to the side of the player, in
/// thousandths of a world unit.
pub const COLLIDER_REACH: i32 = 20_000;

/// A sprite looks left while its pawn walks left and right while it walks
/// right, and keeps looking where it did while the pawn walks neither way.
pub fn sprite_flipping(direction: &MoveDirection, flip_x: &mut bool)
    ensures
        *final(flip_x) == if direction.0.x < 0 {
            true
        } else if direction.0.x > 0 {
            false
        } else {
            *old(flip_x)
        },
{
    if direction.0.x < 0 {
        *flip_x = true;
    } else if direction.0.x > 0 {
        *flip_x = false;
    }
}

/// The lantern's collider sits on the side the lantern points to, and stays
/// where it is while the lantern points to neither side.
pub fn collider_offset(direction: &LightDirection, x: &mut i32)
    ensures
        *final(x) == if direction.0.x > 0 {
            COLLIDER_REACH as int
        } else if direction.0.x < 0 {
            -COLLIDER_REACH
        } else {
            *old(x) as int
        },
{
    if direction.0.x > 0 {
        *x = COLLIDER_REACH;
    } else if direction.0.x < 0 {
        *x = -COLLIDER_REACH;
    }
}

} // verus!
