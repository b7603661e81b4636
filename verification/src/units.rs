//! Fixed-point scale and the game's tuning constants.

use vstd::prelude::*;

verus! {

/// Fixed-point units that make up one engine unit (a radian per second for
/// spin, a pixel per second for linear speed).
pub const UNITS_PER_ONE: i64 = 1_000_000_000;

/// Spin gained per nanosecond while a steering key is held: eight engine
/// units per second.
pub const STEER_RATE: i64 = 8;

/// Largest spin, in either direction, that steering may command: fifteen
/// engine units.
pub const MAX_SPIN: i64 = 15_000_000_000;

/// Upward speed that a jump sets: 360 engine units.
pub const JUMP_SPEED: i64 = 360_000_000_000;

/// Radius of the ball's collider: fifteen engine units.
pub const BALL_RADIUS: i64 = 15_000_000_000;

/// Side of the ball's square sprite: the ball's diameter.
pub const BALL_SPRITE_SIZE: i64 = 30_000_000_000;

/// Bounciness of the ball: seven tenths.
pub const BALL_RESTITUTION: i64 = 700_000_000;

/// Friction of the ball: five.
pub const BALL_FRICTION: i64 = 5_000_000_000;

/// Height above the origin at which the ball starts: twenty engine units.
pub const BALL_START_HEIGHT: i64 = 20_000_000_000;

/// Drawing layer of the ball, one above the level's.
pub const BALL_LAYER: i64 = 1_000_000_000;

/// Numerator of the factor applied to a command that would slow the ball.
pub const EASE_NUM: i64 = 4;

/// Denominator of that factor.
pub const EASE_DEN: i64 = 5;

/// Distance of `x` from zero.
pub open spec fn magnitude(x: int) -> int {
    if x < 0 {
        -x
    } else {
        x
    }
}

/// Four fifths of `x`, rounded toward zero.
pub open spec fn four_fifths(x: int) -> int {
    if x < 0 {
        -((EASE_NUM * (-x)) / (EASE_DEN as int))
    } else {
        (EASE_NUM * x) / (EASE_DEN as int)
    }
}

/// `x` held to the closed range from `-MAX_SPIN` to `MAX_SPIN`.
pub open spec fn clamp_spin(x: int) -> int {
    if x < -MAX_SPIN {
        -MAX_SPIN as int
    } else if x > MAX_SPIN {
        MAX_SPIN as int
    } else {
        x
    }
}

} // verus!
