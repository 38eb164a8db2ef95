use vstd::prelude::*;

verus! {

/// Which side of the rink a paddle guards.
#[derive(Clone, Copy, Debug, PartialEq, Eq, Structural)]
pub enum Side {
    Left,
    Right,
}

/// A velocity, per second.
#[derive(Clone, Copy, Debug, PartialEq, Eq, Structural)]
pub struct Velocity {
    pub x: i64,
    pub y: i64,
}

/// A paddle: its side and the position of its centre. Only `y` ever moves.
#[derive(Clone, Copy, Debug, PartialEq, Eq, Structural)]
pub struct Paddle {
    pub side: Side,
    pub x: i64,
    pub y: i64,
}

/// The puck: the position of its centre and its velocity.
#[derive(Clone, Copy, Debug, PartialEq, Eq, Structural)]
pub struct Puck {
    pub x: i64,
    pub y: i64,
    pub velocity: Velocity,
}

impl Velocity {
    /// Both components lie within the range the collision arithmetic handles.
    pub open spec fn bounded(self) -> bool {
        -crate::constants::VELOCITY_LIMIT <= self.x <= crate::constants::VELOCITY_LIMIT
            && -crate::constants::VELOCITY_LIMIT <= self.y <= crate::constants::VELOCITY_LIMIT
    }
}

} // verus!
