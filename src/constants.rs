use vstd::prelude::*;

verus! {

/// Width of the rink (hundredths of a world unit).
pub const WINDOW_WIDTH: i64 = 80_000;

/// Height of the rink.
pub const WINDOW_HEIGHT: i64 = 60_000;

/// Paddle speed per second while a key is held.
pub const PADDLE_SPEED: i64 = 55_000;

/// Radius of a paddle.
pub const PADDLE_RADIUS: i64 = 4_000;

/// Diameter of the puck.
pub const PUCK_SIZE: i64 = 6_500;

/// Speed of the puck per second.
pub const PUCK_SPEED: i64 = 60_000;

/// Distance of the paddles' line from the side walls.
pub const PADDLE_INSET: i64 = 5_000;

/// Fixed horizontal position of the left paddle: `-WINDOW_WIDTH / 2 + PADDLE_INSET`.
pub const LEFT_PADDLE_X: i64 = -35_000;

/// Fixed horizontal position of the right paddle: `WINDOW_WIDTH / 2 - PADDLE_INSET`.
pub const RIGHT_PADDLE_X: i64 = 35_000;

/// How far beyond a side wall the goal line lies.
pub const GOAL_MARGIN: i64 = 5_000;

/// A goal registers once the puck's `|x|` exceeds this: `WINDOW_WIDTH / 2 + GOAL_MARGIN`.
pub const GOAL_LINE: i64 = 45_000;

/// Largest `|y|` of a paddle's centre: `WINDOW_HEIGHT / 2 - PADDLE_RADIUS`.
pub const PADDLE_LIMIT: i64 = 26_000;

/// Largest `|y|` of the puck's centre before it bounces off a wall:
/// `WINDOW_HEIGHT / 2 - PUCK_SIZE / 2`.
pub const PUCK_LIMIT: i64 = 26_750;

/// Centres closer than this touch: `PADDLE_RADIUS + PUCK_SIZE / 2`.
pub const COLLISION_DISTANCE: i64 = 7_250;

/// Largest `|x|` of the puck in mid-frame, between moving it and checking
/// for a goal.
pub const PUCK_ROAM_LIMIT: i64 = 0x4_0000_0000_0000;

/// Largest velocity component the fixed-point collision arithmetic handles.
pub const VELOCITY_LIMIT: i64 = 131_072;

/// Microseconds in a second.
pub const MICROS_PER_SECOND: i64 = 1_000_000;

/// Serve delay after entering play and after every goal (microseconds).
pub const SERVE_DELAY: u64 = 2_000_000;

/// Interval of one countdown step (microseconds).
pub const COUNTDOWN_TICK: u64 = 1_000_000;

/// The number the countdown starts from.
pub const COUNTDOWN_START: u32 = 3;

} // verus!
