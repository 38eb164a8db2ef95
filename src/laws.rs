//! Properties of the simulation, stated over its spec functions and proved.
use vstd::prelude::*;
use crate::components::{Puck, Velocity};
use crate::constants::{COLLISION_DISTANCE, GOAL_LINE, PADDLE_LIMIT, PADDLE_SPEED, PUCK_SPEED, SERVE_DELAY};
use crate::math::{
    floor_sqrt, lemma_floor_sqrt_bounds, lemma_floor_sqrt_from_bounds, scale_toward_zero,
};
use crate::physics::{
    abs_spec, collides, lemma_reflect_dir_nonzero, lemma_scaled_component, paddle_direction,
    paddle_y_after, reflect_dir_x, reflect_dir_y, travel_spec, velocity_after_paddle,
};
use crate::systems::{stepped, FrameInput, Game};

verus! {

/// A paddle always ends a frame inside `[-PADDLE_LIMIT, PADDLE_LIMIT]`; a
/// move that would leave that range stops exactly on its edge, and any other
/// move is kept as it is.
pub proof fn paddle_clamping(y: i64, up: bool, down: bool, dt: u32)
    ensures
        ({
            let moved = y + travel_spec(paddle_direction(up, down) * PADDLE_SPEED, dt as int);
            let r = paddle_y_after(y as int, up, down, dt as int);
            &&& -PADDLE_LIMIT <= r <= PADDLE_LIMIT
            &&& moved > PADDLE_LIMIT ==> r == PADDLE_LIMIT
            &&& moved < -PADDLE_LIMIT ==> r == -PADDLE_LIMIT
            &&& -PADDLE_LIMIT <= moved <= PADDLE_LIMIT ==> r == moved
        }),
{
}

/// A reflection off a paddle leaves the puck at `PUCK_SPEED` up to rounding:
/// its speed is below `PUCK_SPEED + 1`, and adding one unit to each
/// component's magnitude takes it above `PUCK_SPEED`. This holds whatever
/// the incoming speed.
pub proof fn speed_conservation(p: Puck, px: i64, py: i64)
    requires
        p.velocity.bounded(),
        collides(p, px as int, py as int),
    ensures
        ({
            let r = velocity_after_paddle(p, px as int, py as int);
            &&& r.x * r.x + r.y * r.y < (PUCK_SPEED + 1) * (PUCK_SPEED + 1)
            &&& PUCK_SPEED * PUCK_SPEED < (abs_spec(r.x as int) + 1) * (abs_spec(r.x as int) + 1)
                + (abs_spec(r.y as int) + 1) * (abs_spec(r.y as int) + 1)
        }),
{
    let dx = p.x - px;
    let dy = p.y - py;
    let vx = p.velocity.x as int;
    let vy = p.velocity.y as int;
    let wx = reflect_dir_x(vx, vy, dx, dy);
    let wy = reflect_dir_y(vx, vy, dx, dy);
    let n = wx * wx + wy * wy;
    let s = PUCK_SPEED as int;
    lemma_reflect_dir_nonzero(vx, vy, dx, dy);
    assert(wx * wx >= 0 && wy * wy >= 0) by (nonlinear_arith);
    lemma_floor_sqrt_bounds(n as nat);
    let l = floor_sqrt(n as nat) as int;
    assert(l >= s) by (nonlinear_arith)
        requires
            n < (l + 1) * (l + 1),
            n >= s * s,
            l >= 0,
            s > 0,
    ;
    lemma_scaled_component(wx, n, l);
    lemma_scaled_component(wy, n, l);
    let ox = scale_toward_zero(wx, s, l);
    let oy = scale_toward_zero(wy, s, l);
    let a = abs_spec(wx);
    let b = abs_spec(wy);
    let pp = abs_spec(ox);
    let q = abs_spec(oy);
    assert(a * a + b * b == n) by (nonlinear_arith)
        requires
            a == wx || a == -wx,
            b == wy || b == -wy,
            n == wx * wx + wy * wy,
    ;
    assert(pp * pp + q * q < (s + 1) * (s + 1)) by (nonlinear_arith)
        requires
            0 <= pp,
            0 <= q,
            0 <= a,
            0 <= b,
            pp * l <= a * s,
            q * l <= b * s,
            a * a + b * b == n,
            n < (l + 1) * (l + 1),
            l >= s,
            s > 0,
    {
        assert(pp * pp * (l * l) <= a * a * (s * s)) by (nonlinear_arith)
            requires
                0 <= pp * l <= a * s,
        ;
        assert(q * q * (l * l) <= b * b * (s * s)) by (nonlinear_arith)
            requires
                0 <= q * l <= b * s,
        ;
        assert((pp * pp + q * q) * (l * l) == pp * pp * (l * l) + q * q * (l * l)) by (nonlinear_arith);
        assert((a * a + b * b) * (s * s) == a * a * (s * s) + b * b * (s * s)) by (nonlinear_arith);
        assert((a * a + b * b) * (s * s) < ((l + 1) * (l + 1)) * (s * s)) by (nonlinear_arith)
            requires
                a * a + b * b < (l + 1) * (l + 1),
                s > 0,
        ;
        assert(((l + 1) * (l + 1)) * (s * s) == ((l + 1) * s) * ((l + 1) * s)) by (nonlinear_arith);
        if pp * pp + q * q >= (s + 1) * (s + 1) {
            assert(((s + 1) * l) * ((s + 1) * l) < ((l + 1) * s) * ((l + 1) * s)) by (nonlinear_arith)
                requires
                    (pp * pp + q * q) * (l * l) < ((l + 1) * s) * ((l + 1) * s),
                    pp * pp + q * q >= (s + 1) * (s + 1),
            ;
            assert((s + 1) * l < (l + 1) * s) by (nonlinear_arith)
                requires
                    ((s + 1) * l) * ((s + 1) * l) < ((l + 1) * s) * ((l + 1) * s),
                    l >= 0,
                    s >= 0,
            ;
        }
    }
    assert(s * s < (pp + 1) * (pp + 1) + (q + 1) * (q + 1)) by (nonlinear_arith)
        requires
            0 <= pp,
            0 <= q,
            0 <= a,
            0 <= b,
            a * s < (pp + 1) * l,
            b * s < (q + 1) * l,
            a * a + b * b == n,
            l * l <= n,
            l >= 1,
            s > 0,
    {
        assert(0 <= a * s && 0 <= b * s) by (nonlinear_arith)
            requires
                0 <= a,
                0 <= b,
                s > 0,
        ;
        assert(a * a * (s * s) <= (pp + 1) * (pp + 1) * (l * l)) by (nonlinear_arith)
            requires
                0 <= a * s < (pp + 1) * l,
        ;
        assert(b * b * (s * s) <= (q + 1) * (q + 1) * (l * l)) by (nonlinear_arith)
            requires
                0 <= b * s < (q + 1) * l,
        ;
        assert(a * a * (s * s) < (pp + 1) * (pp + 1) * (l * l)) by (nonlinear_arith)
            requires
                0 <= a * s < (pp + 1) * l,
        ;
        assert((l * l) * (s * s) <= (a * a + b * b) * (s * s)) by (nonlinear_arith)
            requires
                l * l <= a * a + b * b,
        ;
        assert((a * a + b * b) * (s * s) == a * a * (s * s) + b * b * (s * s)) by (nonlinear_arith);
        assert(((pp + 1) * (pp + 1) + (q + 1) * (q + 1)) * (l * l) == (pp + 1) * (pp + 1) * (l * l)
            + (q + 1) * (q + 1) * (l * l)) by (nonlinear_arith);
        assert(s * s < (pp + 1) * (pp + 1) + (q + 1) * (q + 1)) by (nonlinear_arith)
            requires
                (l * l) * (s * s) < ((pp + 1) * (pp + 1) + (q + 1) * (q + 1)) * (l * l),
                l >= 1,
        ;
    }
    assert(ox * ox == pp * pp && oy * oy == q * q) by (nonlinear_arith)
        requires
            pp == ox || pp == -ox,
            q == oy || q == -oy,
    ;
}

/// A puck level with a paddle and moving straight at it along the line of
/// centres collides and comes back along the same line at `PUCK_SPEED`: a
/// puck that arrived at `PUCK_SPEED` leaves with exactly the opposite
/// velocity.
pub proof fn straight_reflection(p: Puck, px: i64, py: i64)
    requires
        p.velocity.bounded(),
        p.y == py,
        p.velocity.y == 0,
        0 < (p.x - px) * (p.x - px) < COLLISION_DISTANCE * COLLISION_DISTANCE,
        p.velocity.x * (p.x - px) < 0,
    ensures
        collides(p, px as int, py as int),
        velocity_after_paddle(p, px as int, py as int) == (Velocity {
            x: if p.velocity.x < 0 { PUCK_SPEED } else { (-PUCK_SPEED) as i64 },
            y: 0,
        }),
        p.velocity.x == PUCK_SPEED || p.velocity.x == -PUCK_SPEED ==> velocity_after_paddle(
            p,
            px as int,
            py as int,
        ) == (Velocity { x: (-p.velocity.x) as i64, y: 0 }),
{
    let dx = p.x - px;
    let vx = p.velocity.x as int;
    let s = PUCK_SPEED as int;
    let wx = reflect_dir_x(vx, 0, dx, 0);
    let wy = reflect_dir_y(vx, 0, dx, 0);
    assert(wx == -(vx * (dx * dx)) * s && wy == 0) by (nonlinear_arith)
        requires
            wx == (vx * (dx * dx + 0 * 0) - 2 * ((vx * dx + 0 * 0) * dx)) * s,
            wy == (0 * (dx * dx + 0 * 0) - 2 * ((vx * dx + 0 * 0) * 0)) * s,
    ;
    let a = abs_spec(wx);
    assert(a * a == wx * wx + wy * wy && a > 0 && a * a < (a + 1) * (a + 1)) by (nonlinear_arith)
        requires
            a == wx || a == -wx,
            wy == 0,
            wx == -(vx * (dx * dx)) * s,
            vx * dx < 0,
            s > 0,
            a >= 0,
    ;
    lemma_floor_sqrt_from_bounds(wx * wx + wy * wy, a);
    assert(a * s / a == s) by (nonlinear_arith)
        requires
            a > 0,
    ;
    assert(vx < 0 <==> wx > 0) by (nonlinear_arith)
        requires
            wx == -(vx * (dx * dx)) * s,
            vx * dx < 0,
            s > 0,
    ;
    if wx < 0 {
        assert((-wx) * s == a * s);
    }
    assert(scale_toward_zero(wy, s, a) == 0);
}

/// A puck that overlaps a paddle but moves away from it, or along its
/// surface, keeps its velocity.
pub proof fn no_double_reflection(p: Puck, px: i64, py: i64)
    requires
        p.velocity.x * (p.x - px) + p.velocity.y * (p.y - py) >= 0,
    ensures
        velocity_after_paddle(p, px as int, py as int) == p.velocity,
{
}

/// Goal check of a game in play, before and after one frame of play.
pub open spec fn goal_registered(g: Game, g2: Game) -> bool {
    g.score != g2.score
}

/// Once a goal is registered, the next frame, as long as it is shorter than
/// the serve delay and does not restart the game, registers no second one:
/// the score and the puck stay as the goal left them.
pub proof fn goal_idempotence(g: Game, first: FrameInput, next: FrameInput, toward_right: bool)
    requires
        g.wf(),
        g.phase is Playing,
        goal_registered(g, stepped(g, first, toward_right)),
        stepped(g, first, toward_right).phase is Playing,
        next.dt < SERVE_DELAY,
        !next.restart_clicked,
    ensures
        ({
            let g1 = stepped(g, first, toward_right);
            let g2 = stepped(g1, next, toward_right);
            &&& g2.score == g1.score
            &&& g1.phase->Playing_0.puck.x == 0 && g1.phase->Playing_0.puck.y == 0
            &&& g2.phase->Playing_0.puck.x == 0 && g2.phase->Playing_0.puck.y == 0
        }),
{
}

/// While the serve delay has not run out by the end of a frame, the frame
/// leaves the puck exactly where it was, position and velocity.
pub proof fn serve_delay_holds_puck(g: Game, input: FrameInput, toward_right: bool)
    requires
        g.wf(),
        g.phase is Playing,
        !g.phase->Playing_0.paused.0,
        !input.pause_pressed,
        g.serve_timer.elapsed + input.dt < SERVE_DELAY,
    ensures
        stepped(g, input, toward_right).phase is Playing,
        stepped(g, input, toward_right).phase->Playing_0.puck == g.phase->Playing_0.puck,
        stepped(g, input, toward_right).score == g.score,
{
}

/// Once the serve delay has run out, a frame moves the puck by its velocity
/// (then the walls act), unless that move ends in a goal.
pub proof fn serve_delay_releases_puck(g: Game, input: FrameInput, toward_right: bool)
    requires
        g.wf(),
        g.phase is Playing,
        !g.phase->Playing_0.paused.0,
        !input.pause_pressed,
        g.serve_timer.elapsed + input.dt >= SERVE_DELAY,
        -GOAL_LINE <= crate::physics::puck_after_move(g.phase->Playing_0.puck, input.dt as int).x
            <= GOAL_LINE,
    ensures
        stepped(g, input, toward_right).phase is Playing,
        stepped(g, input, toward_right).phase->Playing_0.puck.x == crate::physics::puck_after_move(
            g.phase->Playing_0.puck,
            input.dt as int,
        ).x,
        stepped(g, input, toward_right).phase->Playing_0.puck.y == crate::physics::puck_after_move(
            g.phase->Playing_0.puck,
            input.dt as int,
        ).y,
{
}

/// A paused game with no pause key and no button stays exactly as it is,
/// whatever paddle keys are held and however long the frame.
pub proof fn pause_blocks_motion(g: Game, input: FrameInput, toward_right: bool)
    requires
        g.wf(),
        g.phase is Playing,
        g.phase->Playing_0.paused.0,
        !input.pause_pressed,
        !input.resume_clicked,
        !input.restart_clicked,
    ensures
        stepped(g, input, toward_right) == g,
{
}

/// The game after a sequence of frames.
pub open spec fn run(g: Game, inputs: Seq<FrameInput>, toward_right: bool) -> Game
    decreases inputs.len(),
{
    if inputs.len() == 0 {
        g
    } else {
        run(stepped(g, inputs[0], toward_right), inputs.drop_first(), toward_right)
    }
}

/// The time a sequence of frames covers.
pub open spec fn total_dt(inputs: Seq<FrameInput>) -> int
    decreases inputs.len(),
{
    if inputs.len() == 0 {
        0
    } else {
        inputs[0].dt + total_dt(inputs.drop_first())
    }
}

/// However many frames pass, as long as they add up to less than what is
/// left of the serve delay and none restarts the game, the puck stays
/// exactly where it was and no goal is scored; pausing in between changes
/// nothing of that.
pub proof fn serve_delay_over_frames(g: Game, inputs: Seq<FrameInput>, toward_right: bool)
    requires
        g.phase is Playing,
        -GOAL_LINE <= g.phase->Playing_0.puck.x <= GOAL_LINE,
        g.serve_timer.elapsed + total_dt(inputs) < SERVE_DELAY,
        forall|i: int| 0 <= i < inputs.len() ==> !(#[trigger] inputs[i]).restart_clicked,
    ensures
        run(g, inputs, toward_right).phase is Playing,
        run(g, inputs, toward_right).phase->Playing_0.puck == g.phase->Playing_0.puck,
        run(g, inputs, toward_right).score == g.score,
    decreases inputs.len(),
{
    if inputs.len() > 0 {
        let rest = inputs.drop_first();
        assert(total_dt(rest) >= 0) by {
            lemma_total_dt_nonneg(rest);
        }
        assert(!inputs[0].restart_clicked);
        let g1 = stepped(g, inputs[0], toward_right);
        assert(g1.serve_timer.elapsed <= g.serve_timer.elapsed + inputs[0].dt);
        assert forall|i: int| 0 <= i < rest.len() implies !(#[trigger] rest[i]).restart_clicked by {
            assert(rest[i] == inputs[i + 1]);
        }
        serve_delay_over_frames(g1, rest, toward_right);
    }
}

pub proof fn lemma_total_dt_nonneg(inputs: Seq<FrameInput>)
    ensures
        total_dt(inputs) >= 0,
    decreases inputs.len(),
{
    if inputs.len() > 0 {
        lemma_total_dt_nonneg(inputs.drop_first());
    }
}

} // verus!
