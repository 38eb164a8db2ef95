//! Motion and collision rules as pure functions of positions and velocities.
use vstd::prelude::*;
use vstd::arithmetic::div_mod::lemma_fundamental_div_mod;
use crate::components::{Puck, Velocity};
use crate::constants::{
    COLLISION_DISTANCE, MICROS_PER_SECOND, PADDLE_LIMIT, PADDLE_SPEED, PUCK_LIMIT, PUCK_SPEED,
    VELOCITY_LIMIT,
};
use crate::math::{clamp, floor_sqrt, is_floor_sqrt, isqrt, lemma_floor_sqrt_bounds, scale_toward_zero};

verus! {

/// Distance covered in `dt` microseconds at `rate` per second, rounded toward zero.
pub open spec fn travel_spec(rate: int, dt: int) -> int {
    scale_toward_zero(rate, dt, MICROS_PER_SECOND as int)
}

pub fn travel(rate: i64, dt: u32) -> (r: i128)
    ensures
        r == travel_spec(rate as int, dt as int),
{
    assert(-0x1_0000_0000_0000_0000_0000_0000 <= rate * dt <= 0x1_0000_0000_0000_0000_0000_0000)
        by (nonlinear_arith)
        requires
            -0x8000_0000_0000_0000 <= rate < 0x8000_0000_0000_0000,
            0 <= dt < 0x1_0000_0000,
    ;
    let m: i128 = rate as i128 * dt as i128;
    if rate >= 0 {
        assert(m >= 0) by (nonlinear_arith)
            requires
                m == rate * dt,
                rate >= 0,
                dt >= 0,
        ;
        m / 1_000_000
    } else {
        assert((-rate) * dt == -m && -m >= 0) by (nonlinear_arith)
            requires
                m == rate * dt,
                rate < 0,
                dt >= 0,
        ;
        -((-m) / 1_000_000)
    }
}

/// Net direction of a paddle from its two held keys: up is `1`, down is
/// `-1`, both or neither cancel out.
pub open spec fn paddle_direction(up: bool, down: bool) -> int {
    (if up { 1int } else { 0int }) - (if down { 1int } else { 0int })
}

/// Where a paddle at height `y` stands after `dt` microseconds with the given
/// keys held: moved, then clamped into the rink.
pub open spec fn paddle_y_after(y: int, up: bool, down: bool, dt: int) -> int {
    clamp(
        y + travel_spec(paddle_direction(up, down) * PADDLE_SPEED, dt),
        -PADDLE_LIMIT as int,
        PADDLE_LIMIT as int,
    )
}

/// Moves a paddle's `y` for one frame and clamps it into the rink.
pub fn step_paddle_y(y: i64, up: bool, down: bool, dt: u32) -> (r: i64)
    ensures
        r == paddle_y_after(y as int, up, down, dt as int),
        -PADDLE_LIMIT <= r <= PADDLE_LIMIT,
{
    let mut direction: i64 = 0;
    if up {
        direction = direction + 1;
    }
    if down {
        direction = direction - 1;
    }
    let moved: i128 = y as i128 + travel(direction * PADDLE_SPEED, dt);
    if moved < -(PADDLE_LIMIT as i128) {
        -PADDLE_LIMIT
    } else if moved > PADDLE_LIMIT as i128 {
        PADDLE_LIMIT
    } else {
        moved as i64
    }
}

/// The puck after `dt` microseconds of free motion, with the wall rule: past
/// the top or bottom boundary it is put back on it and sent away from it.
pub open spec fn puck_after_move(p: Puck, dt: int) -> Puck {
    let x = p.x + travel_spec(p.velocity.x as int, dt);
    let y = p.y + travel_spec(p.velocity.y as int, dt);
    if y > PUCK_LIMIT {
        Puck {
            x: x as i64,
            y: PUCK_LIMIT,
            velocity: Velocity { x: p.velocity.x, y: -abs_spec(p.velocity.y as int) as i64 },
        }
    } else if y < -PUCK_LIMIT {
        Puck {
            x: x as i64,
            y: (-PUCK_LIMIT) as i64,
            velocity: Velocity { x: p.velocity.x, y: abs_spec(p.velocity.y as int) as i64 },
        }
    } else {
        Puck { x: x as i64, y: y as i64, velocity: p.velocity }
    }
}

pub open spec fn abs_spec(v: int) -> int {
    if v < 0 {
        -v
    } else {
        v
    }
}

/// The puck's new position fits the integer type.
pub open spec fn move_fits(p: Puck, dt: int) -> bool {
    i64::MIN <= p.x + travel_spec(p.velocity.x as int, dt) <= i64::MAX
        && i64::MIN <= p.y + travel_spec(p.velocity.y as int, dt) <= i64::MAX
}

/// Moves the puck for one frame and applies the top and bottom walls.
pub fn step_puck(p: &Puck, dt: u32) -> (r: Puck)
    requires
        p.velocity.bounded(),
        move_fits(*p, dt as int),
    ensures
        r == puck_after_move(*p, dt as int),
        r.velocity.bounded(),
        -PUCK_LIMIT <= r.y <= PUCK_LIMIT,
{
    let x: i64 = (p.x as i128 + travel(p.velocity.x, dt)) as i64;
    let y: i128 = p.y as i128 + travel(p.velocity.y, dt);
    let vx = p.velocity.x;
    let vy = p.velocity.y;
    let up: i64 = if vy < 0 { -vy } else { vy };
    if y > PUCK_LIMIT as i128 {
        Puck { x, y: PUCK_LIMIT, velocity: Velocity { x: vx, y: -up } }
    } else if y < -(PUCK_LIMIT as i128) {
        Puck { x, y: -PUCK_LIMIT, velocity: Velocity { x: vx, y: up } }
    } else {
        Puck { x, y: y as i64, velocity: p.velocity }
    }
}

} // verus!

verus! {

/// The puck overlaps the paddle centred at `(px, py)`, the centres do not
/// coincide, and the puck moves toward the paddle along their normal.
pub open spec fn collides(p: Puck, px: int, py: int) -> bool {
    let dx = p.x - px;
    let dy = p.y - py;
    &&& 0 < dx * dx + dy * dy < COLLISION_DISTANCE * COLLISION_DISTANCE
    &&& p.velocity.x * dx + p.velocity.y * dy < 0
}

/// `v - 2 (v . n) n` for the normal `n = d / |d|`, multiplied by
/// `|d|^2 * PUCK_SPEED` so that it stays in integers: first component.
pub open spec fn reflect_dir_x(vx: int, vy: int, dx: int, dy: int) -> int {
    (vx * (dx * dx + dy * dy) - 2 * ((vx * dx + vy * dy) * dx)) * PUCK_SPEED
}

/// Second component of the scaled reflection.
pub open spec fn reflect_dir_y(vx: int, vy: int, dx: int, dy: int) -> int {
    (vy * (dx * dx + dy * dy) - 2 * ((vx * dx + vy * dy) * dy)) * PUCK_SPEED
}

/// The direction `(wx, wy)` brought to length `PUCK_SPEED`, each component
/// rounded toward zero.
pub open spec fn renormalized(wx: int, wy: int) -> Velocity {
    let l = floor_sqrt((wx * wx + wy * wy) as nat) as int;
    Velocity {
        x: scale_toward_zero(wx, PUCK_SPEED as int, l) as i64,
        y: scale_toward_zero(wy, PUCK_SPEED as int, l) as i64,
    }
}

/// `v` reflected off the normal `(dx, dy)` and renormalized to `PUCK_SPEED`.
pub open spec fn reflected(v: Velocity, dx: int, dy: int) -> Velocity {
    renormalized(
        reflect_dir_x(v.x as int, v.y as int, dx, dy),
        reflect_dir_y(v.x as int, v.y as int, dx, dy),
    )
}

/// The puck's velocity after it is checked against the paddle at `(px, py)`.
pub open spec fn velocity_after_paddle(p: Puck, px: int, py: int) -> Velocity {
    if collides(p, px, py) {
        reflected(p.velocity, p.x - px, p.y - py)
    } else {
        p.velocity
    }
}

pub proof fn lemma_abs_mul_le(a: int, b: int, ba: int, bb: int)
    requires
        -ba <= a <= ba,
        -bb <= b <= bb,
    ensures
        -(ba * bb) <= a * b <= ba * bb,
{
    assert(-(ba * bb) <= a * b <= ba * bb) by (nonlinear_arith)
        requires
            -ba <= a <= ba,
            -bb <= b <= bb,
    ;
}

/// A component `w` of a vector of squared length `n`, scaled by
/// `PUCK_SPEED / floor_sqrt(n)`, stays within `PUCK_SPEED`, and the rounding
/// toward zero loses less than one unit.
pub proof fn lemma_scaled_component(w: int, n: int, l: int)
    requires
        w * w <= n,
        is_floor_sqrt(n, l),
        l >= 1,
    ensures
        0 <= abs_spec(scale_toward_zero(w, PUCK_SPEED as int, l)) <= PUCK_SPEED,
        abs_spec(scale_toward_zero(w, PUCK_SPEED as int, l)) * l <= abs_spec(w) * PUCK_SPEED,
        abs_spec(w) * PUCK_SPEED < (abs_spec(scale_toward_zero(w, PUCK_SPEED as int, l)) + 1) * l,
        w >= 0 ==> scale_toward_zero(w, PUCK_SPEED as int, l) >= 0,
        w <= 0 ==> scale_toward_zero(w, PUCK_SPEED as int, l) <= 0,
{
    let a = abs_spec(w);
    let s = PUCK_SPEED as int;
    assert(a * a == w * w) by (nonlinear_arith)
        requires
            a == w || a == -w,
    ;
    assert(a <= l) by (nonlinear_arith)
        requires
            a * a <= n,
            n < (l + 1) * (l + 1),
            a >= 0,
            l >= 0,
    ;
    if w < 0 {
        assert((-w) * s == a * s);
    }
    let q = a * s / l;
    lemma_fundamental_div_mod(a * s, l);
    let r = (a * s) % l;
    assert(0 <= r < l);
    assert(q >= 0 && q * l <= a * s && a * s < (q + 1) * l && q <= s) by (nonlinear_arith)
        requires
            a * s == l * q + r,
            0 <= r < l,
            0 <= a <= l,
            s > 0,
    ;
}

/// The exact reflection never vanishes: its dot product with the normal is
/// `-(v . d) |d|^2`.
pub proof fn lemma_reflect_dir_nonzero(vx: int, vy: int, dx: int, dy: int)
    requires
        0 < dx * dx + dy * dy,
        vx * dx + vy * dy < 0,
    ensures
        reflect_dir_x(vx, vy, dx, dy) * reflect_dir_x(vx, vy, dx, dy)
            + reflect_dir_y(vx, vy, dx, dy) * reflect_dir_y(vx, vy, dx, dy)
            >= PUCK_SPEED * PUCK_SPEED,
{
    let d2 = dx * dx + dy * dy;
    let vd = vx * dx + vy * dy;
    let ux = vx * d2 - 2 * (vd * dx);
    let uy = vy * d2 - 2 * (vd * dy);
    assert(ux * dx + uy * dy == -vd * d2) by (nonlinear_arith)
        requires
            d2 == dx * dx + dy * dy,
            vd == vx * dx + vy * dy,
            ux == vx * d2 - 2 * (vd * dx),
            uy == vy * d2 - 2 * (vd * dy),
    ;
    assert(-vd * d2 > 0) by (nonlinear_arith)
        requires
            vd < 0,
            d2 > 0,
    ;
    let s = PUCK_SPEED as int;
    assert((ux * s) * (ux * s) + (uy * s) * (uy * s) >= s * s) by (nonlinear_arith)
        requires
            ux * dx + uy * dy > 0,
            s > 0,
    ;
}

/// Resolves a possible collision of the puck with the paddle centred at
/// `(px, py)`: a puck that overlaps the paddle and moves toward it is
/// reflected off the normal between the centres and brought back to
/// `PUCK_SPEED`; any other puck keeps its velocity.
pub fn reflect_off_paddle(p: &Puck, px: i64, py: i64) -> (r: Velocity)
    requires
        p.velocity.bounded(),
    ensures
        r == velocity_after_paddle(*p, px as int, py as int),
        r.bounded(),
        collides(*p, px as int, py as int) ==> -PUCK_SPEED <= r.x <= PUCK_SPEED && -PUCK_SPEED
            <= r.y <= PUCK_SPEED,
{
    let t: i128 = COLLISION_DISTANCE as i128;
    assert(COLLISION_DISTANCE == 7_250);
    assert(t * t == 52_562_500) by (nonlinear_arith)
        requires
            t == 7_250,
    ;
    let dx: i128 = p.x as i128 - px as i128;
    let dy: i128 = p.y as i128 - py as i128;
    if dx <= -t || dx >= t || dy <= -t || dy >= t {
        assert(dx * dx + dy * dy >= t * t) by (nonlinear_arith)
            requires
                dx <= -t || dx >= t || dy <= -t || dy >= t,
                t > 0,
        ;
        return p.velocity;
    }
    assert(0 <= dx * dx < t * t && 0 <= dy * dy < t * t) by (nonlinear_arith)
        requires
            -t < dx < t,
            -t < dy < t,
    ;
    let d2: i128 = dx * dx + dy * dy;
    if d2 == 0 || d2 >= t * t {
        return p.velocity;
    }
    let vx: i128 = p.velocity.x as i128;
    let vy: i128 = p.velocity.y as i128;
    assert(VELOCITY_LIMIT == 131_072);
    proof {
        lemma_abs_mul_le(vx as int, dx as int, 131_072, 7_250);
        lemma_abs_mul_le(vy as int, dy as int, 131_072, 7_250);
    }
    let vd: i128 = vx * dx + vy * dy;
    if vd >= 0 {
        return p.velocity;
    }
    proof {
        lemma_abs_mul_le(vx as int, d2 as int, 131_072, 52_562_500);
        lemma_abs_mul_le(vy as int, d2 as int, 131_072, 52_562_500);
        lemma_abs_mul_le(vd as int, dx as int, 1_900_544_000, 7_250);
        lemma_abs_mul_le(vd as int, dy as int, 1_900_544_000, 7_250);
    }
    let vdx: i128 = vd * dx;
    let vdy: i128 = vd * dy;
    let ux: i128 = vx * d2 - 2 * vdx;
    let uy: i128 = vy * d2 - 2 * vdy;
    let s: i128 = PUCK_SPEED as i128;
    assert(s == 60_000);
    proof {
        lemma_abs_mul_le(ux as int, s as int, 34_447_360_000_000, 60_000);
        lemma_abs_mul_le(uy as int, s as int, 34_447_360_000_000, 60_000);
    }
    let wx: i128 = ux * s;
    let wy: i128 = uy * s;
    assert(wx == reflect_dir_x(vx as int, vy as int, dx as int, dy as int));
    assert(wy == reflect_dir_y(vx as int, vy as int, dx as int, dy as int));
    proof {
        lemma_abs_mul_le(wx as int, wx as int, 2_066_841_600_000_000_000, 2_066_841_600_000_000_000);
        lemma_abs_mul_le(wy as int, wy as int, 2_066_841_600_000_000_000, 2_066_841_600_000_000_000);
        lemma_reflect_dir_nonzero(vx as int, vy as int, dx as int, dy as int);
    }
    let n: i128 = wx * wx + wy * wy;
    let l: i128 = isqrt(n as u128) as i128;
    proof {
        lemma_floor_sqrt_bounds(n as nat);
        assert(l >= s) by (nonlinear_arith)
            requires
                n < (l + 1) * (l + 1),
                n >= s * s,
                l >= 0,
                s > 0,
        ;
        assert(wx * wx >= 0 && wy * wy >= 0) by (nonlinear_arith);
        lemma_scaled_component(wx as int, n as int, l as int);
        lemma_scaled_component(wy as int, n as int, l as int);
        lemma_abs_mul_le(wx as int, s as int, 2_066_841_600_000_000_000, 60_000);
        lemma_abs_mul_le(wy as int, s as int, 2_066_841_600_000_000_000, 60_000);
    }
    let ox: i128 = if wx >= 0 { wx * s / l } else { -((-wx) * s / l) };
    let oy: i128 = if wy >= 0 { wy * s / l } else { -((-wy) * s / l) };
    Velocity { x: ox as i64, y: oy as i64 }
}

} // verus!
