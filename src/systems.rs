//! The per-frame systems and the phase state machine.
use vstd::prelude::*;
use rand::Rng;
use crate::components::{Paddle, Puck, Side, Velocity};
use crate::constants::{
    COUNTDOWN_START, GOAL_LINE, LEFT_PADDLE_X, PADDLE_LIMIT, PUCK_LIMIT, PUCK_ROAM_LIMIT, PUCK_SPEED,
    RIGHT_PADDLE_X,
};
use crate::physics::{
    abs_spec, move_fits, paddle_y_after, puck_after_move, reflect_off_paddle, step_paddle_y,
    step_puck, travel_spec, velocity_after_paddle,
};
use crate::resources::{
    bump, CountdownTimer, GamePaused, GameState, PuckDelayTimer, Score,
};

verus! {

/// The entities that exist while playing: two paddles, the puck and the
/// pause flag.
#[derive(Clone, Copy, Debug, PartialEq, Eq, Structural)]
pub struct Match {
    pub left: Paddle,
    pub right: Paddle,
    pub puck: Puck,
    pub paused: GamePaused,
}

/// What a frame hands the simulation: elapsed time in microseconds, the held
/// paddle keys, and the edge events of the pause key and the buttons.
#[derive(Clone, Copy, Debug, PartialEq, Eq, Structural)]
pub struct FrameInput {
    pub dt: u32,
    pub left_up: bool,
    pub left_down: bool,
    pub right_up: bool,
    pub right_down: bool,
    pub pause_pressed: bool,
    pub play_clicked: bool,
    pub resume_clicked: bool,
    pub restart_clicked: bool,
}

/// The phase, with the entities that exist only in it.
#[derive(Clone, Copy, Debug, PartialEq, Eq, Structural)]
pub enum Phase {
    StartScreen,
    Countdown(CountdownTimer),
    Playing(Match),
}

/// The whole simulation state.
#[derive(Clone, Copy, Debug, PartialEq, Eq, Structural)]
pub struct Game {
    pub phase: Phase,
    pub score: Score,
    pub serve_timer: PuckDelayTimer,
}

/// The velocity of a serve toward the right (`true`) or the left.
pub open spec fn serve_velocity(toward_right: bool) -> Velocity {
    Velocity { x: if toward_right { PUCK_SPEED } else { (-PUCK_SPEED) as i64 }, y: 0 }
}

/// Paddles on their lines at height 0, the puck at the centre with a serve
/// velocity, not paused.
pub open spec fn kickoff(toward_right: bool, paused: bool) -> Match {
    Match {
        left: Paddle { side: Side::Left, x: LEFT_PADDLE_X, y: 0 },
        right: Paddle { side: Side::Right, x: RIGHT_PADDLE_X, y: 0 },
        puck: Puck { x: 0, y: 0, velocity: serve_velocity(toward_right) },
        paused: GamePaused(paused),
    }
}

impl Match {
    /// The invariant in mid-frame: paddles on their lines and inside the
    /// rink, the puck inside the walls, its speed components within
    /// `PUCK_SPEED`.
    pub open spec fn wf(self) -> bool {
        &&& self.left.side == Side::Left && self.left.x == LEFT_PADDLE_X
        &&& -PADDLE_LIMIT <= self.left.y <= PADDLE_LIMIT
        &&& self.right.side == Side::Right && self.right.x == RIGHT_PADDLE_X
        &&& -PADDLE_LIMIT <= self.right.y <= PADDLE_LIMIT
        &&& -PUCK_ROAM_LIMIT <= self.puck.x <= PUCK_ROAM_LIMIT
        &&& -PUCK_LIMIT <= self.puck.y <= PUCK_LIMIT
        &&& -PUCK_SPEED <= self.puck.velocity.x <= PUCK_SPEED
        &&& -PUCK_SPEED <= self.puck.velocity.y <= PUCK_SPEED
    }

    /// The invariant between frames: no goal is pending.
    pub open spec fn settled(self) -> bool {
        self.wf() && -GOAL_LINE <= self.puck.x <= GOAL_LINE
    }
}

/// Spawns the entities of play, serving toward the right when `toward_right`.
pub fn setup_game(toward_right: bool) -> (m: Match)
    ensures
        m == kickoff(toward_right, false),
        m.settled(),
{
    let vx: i64 = if toward_right { PUCK_SPEED } else { -PUCK_SPEED };
    Match {
        left: Paddle { side: Side::Left, x: LEFT_PADDLE_X, y: 0 },
        right: Paddle { side: Side::Right, x: RIGHT_PADDLE_X, y: 0 },
        puck: Puck { x: 0, y: 0, velocity: Velocity { x: vx, y: 0 } },
        paused: GamePaused(false),
    }
}

/// Both paddles after one frame of held keys.
pub open spec fn paddles_moved(m: Match, input: FrameInput) -> Match {
    Match {
        left: Paddle {
            y: paddle_y_after(m.left.y as int, input.left_up, input.left_down, input.dt as int) as i64,
            ..m.left
        },
        right: Paddle {
            y: paddle_y_after(m.right.y as int, input.right_up, input.right_down, input.dt as int)
                as i64,
            ..m.right
        },
        ..m
    }
}

/// Moves each paddle by its own keys and clamps it into the rink.
pub fn move_paddles(m: &mut Match, input: &FrameInput)
    requires
        old(m).wf(),
    ensures
        *final(m) == paddles_moved(*old(m), *input),
        final(m).wf(),
{
    m.left.y = step_paddle_y(m.left.y, input.left_up, input.left_down, input.dt);
    m.right.y = step_paddle_y(m.right.y, input.right_up, input.right_down, input.dt);
}

/// `|travel_spec(v, dt)|` is small for a bounded rate.
pub proof fn lemma_travel_bound(v: int, dt: int)
    requires
        -PUCK_SPEED <= v <= PUCK_SPEED,
        0 <= dt <= u32::MAX,
    ensures
        -0x1_0000_0000_0000 <= travel_spec(v, dt) <= 0x1_0000_0000_0000,
{
    let a = abs_spec(v);
    assert(0 <= a * dt <= 60_000 * 0xffff_ffff) by (nonlinear_arith)
        requires
            0 <= a <= 60_000,
            0 <= dt <= 0xffff_ffff,
    ;
    assert(0 <= a * dt / 1_000_000 <= a * dt);
    if v < 0 {
        assert((-v) * dt == a * dt);
    }
}

/// The match after the puck's motion for one frame: none while the serve
/// delay runs.
pub open spec fn puck_moved(m: Match, timer: PuckDelayTimer, dt: int) -> Match {
    if timer.finished() {
        Match { puck: puck_after_move(m.puck, dt), ..m }
    } else {
        m
    }
}

/// Moves the puck once the serve delay has run out, bouncing it off the top
/// and bottom walls.
pub fn move_puck(m: &mut Match, timer: &PuckDelayTimer, dt: u32)
    requires
        old(m).settled(),
    ensures
        *final(m) == puck_moved(*old(m), *timer, dt as int),
        final(m).wf(),
{
    if !timer.is_finished() {
        return;
    }
    proof {
        lemma_travel_bound(m.puck.velocity.x as int, dt as int);
        lemma_travel_bound(m.puck.velocity.y as int, dt as int);
        assert(move_fits(m.puck, dt as int));
    }
    m.puck = step_puck(&m.puck, dt);
}

/// The puck's velocity after it is checked against the left paddle and
/// then the right one.
pub open spec fn collided(m: Match) -> Match {
    let v1 = velocity_after_paddle(m.puck, m.left.x as int, m.left.y as int);
    let p1 = Puck { velocity: v1, ..m.puck };
    let v2 = velocity_after_paddle(p1, m.right.x as int, m.right.y as int);
    Match { puck: Puck { velocity: v2, ..m.puck }, ..m }
}

/// The match after collision checks: none while the serve delay runs.
pub open spec fn paddle_checked(m: Match, timer: PuckDelayTimer) -> Match {
    if timer.finished() {
        collided(m)
    } else {
        m
    }
}

/// Reflects the puck off each paddle that it overlaps and moves toward,
/// once the serve delay has run out.
pub fn check_paddle_collision(m: &mut Match, timer: &PuckDelayTimer)
    requires
        old(m).wf(),
    ensures
        *final(m) == paddle_checked(*old(m), *timer),
        final(m).wf(),
{
    if !timer.is_finished() {
        return;
    }
    let v1 = reflect_off_paddle(&m.puck, m.left.x, m.left.y);
    let p1 = Puck { velocity: v1, ..m.puck };
    let v2 = reflect_off_paddle(&p1, m.right.x, m.right.y);
    m.puck.velocity = v2;
}

/// The puck has passed the left goal line: a goal for the right side.
pub open spec fn left_goal(m: Match) -> bool {
    m.puck.x < -GOAL_LINE
}

/// The puck has passed the right goal line: a goal for the left side.
pub open spec fn right_goal(m: Match) -> bool {
    m.puck.x > GOAL_LINE
}

/// Match, score and serve delay after the goal check.
pub open spec fn scored(m: Match, s: Score, t: PuckDelayTimer) -> (Match, Score, PuckDelayTimer) {
    if left_goal(m) {
        (
            kickoff(true, m.paused.0),
            Score { right: bump(s.right), ..s },
            PuckDelayTimer { elapsed: 0 },
        )
    } else if right_goal(m) {
        (
            kickoff(false, m.paused.0),
            Score { left: bump(s.left), ..s },
            PuckDelayTimer { elapsed: 0 },
        )
    } else {
        (m, s, t)
    }
}

/// Registers a goal when the puck has passed a goal line: credits the side
/// opposite that line, puts puck and paddles back, serves toward the side
/// that lost the point and re-arms the serve delay.
pub fn check_score(m: &mut Match, score: &mut Score, timer: &mut PuckDelayTimer)
    requires
        old(m).wf(),
    ensures
        (*final(m), *final(score), *final(timer)) == scored(*old(m), *old(score), *old(timer)),
        final(m).settled(),
{
    let toward_right: bool;
    if m.puck.x < -GOAL_LINE {
        if score.right < u32::MAX {
            score.right = score.right + 1;
        }
        toward_right = true;
    } else if m.puck.x > GOAL_LINE {
        if score.left < u32::MAX {
            score.left = score.left + 1;
        }
        toward_right = false;
    } else {
        return;
    }
    let paused = m.paused.0;
    *m = setup_game(toward_right);
    m.paused = GamePaused(paused);
    *timer = PuckDelayTimer::armed();
}

impl Game {
    /// Between frames: the serve delay within its range and the entities of
    /// the phase well formed.
    pub open spec fn wf(self) -> bool {
        &&& self.serve_timer.wf()
        &&& match self.phase {
            Phase::StartScreen => true,
            Phase::Countdown(c) => c.wf(),
            Phase::Playing(m) => m.settled(),
        }
    }

    /// The coarse phase.
    pub open spec fn state_spec(self) -> GameState {
        match self.phase {
            Phase::StartScreen => GameState::StartScreen,
            Phase::Countdown(_) => GameState::Countdown,
            Phase::Playing(_) => GameState::Playing,
        }
    }

    /// Paused, which only play can be.
    pub open spec fn paused_spec(self) -> bool {
        match self.phase {
            Phase::Playing(m) => m.paused.0,
            _ => false,
        }
    }

    /// The game as the process starts it: on the start screen, no goals,
    /// the serve delay armed.
    pub fn new() -> (g: Game)
        ensures
            g.phase == Phase::StartScreen,
            g.score == (Score { left: 0, right: 0 }),
            g.serve_timer == (PuckDelayTimer { elapsed: 0 }),
            g.wf(),
    {
        Game { phase: Phase::StartScreen, score: Score::new(), serve_timer: PuckDelayTimer::armed() }
    }

    pub fn state(&self) -> (r: GameState)
        ensures
            r == self.state_spec(),
    {
        match self.phase {
            Phase::StartScreen => GameState::StartScreen,
            Phase::Countdown(_) => GameState::Countdown,
            Phase::Playing(_) => GameState::Playing,
        }
    }

    pub fn is_paused(&self) -> (r: bool)
        ensures
            r == self.paused_spec(),
    {
        match self.phase {
            Phase::Playing(m) => m.paused.0,
            _ => false,
        }
    }

    /// The number the countdown shows, while it runs.
    pub fn countdown_remaining(&self) -> (r: Option<u32>)
        ensures
            r == (match self.phase {
                Phase::Countdown(c) => Some(c.remaining),
                _ => None::<u32>,
            }),
    {
        match self.phase {
            Phase::Countdown(c) => Some(c.remaining),
            _ => None,
        }
    }
}

/// A fresh countdown, starting at `COUNTDOWN_START`.
pub fn setup_countdown() -> (r: CountdownTimer)
    ensures
        r.elapsed == 0,
        r.remaining == COUNTDOWN_START,
        r.wf(),
{
    CountdownTimer { elapsed: 0, remaining: COUNTDOWN_START }
}

/// A fresh countdown as a phase.
pub open spec fn fresh_countdown() -> Phase {
    Phase::Countdown(CountdownTimer { elapsed: 0, remaining: COUNTDOWN_START })
}

/// The game after the Play button on the start screen.
pub open spec fn started(g: Game, play_clicked: bool) -> Game {
    match g.phase {
        Phase::StartScreen => if play_clicked {
            Game { phase: fresh_countdown(), ..g }
        } else {
            g
        },
        _ => g,
    }
}

/// Leaves the start screen for the countdown when Play is clicked.
pub fn handle_start_screen_input(g: &mut Game, play_clicked: bool)
    requires
        old(g).wf(),
    ensures
        *final(g) == started(*old(g), play_clicked),
        final(g).wf(),
{
    if let Phase::StartScreen = g.phase {
        if play_clicked {
            g.phase = Phase::Countdown(setup_countdown());
        }
    }
}

/// The game after `dt` microseconds of countdown; when it reaches zero, play
/// starts, serving toward the right when `toward_right`, with the serve delay
/// armed.
pub open spec fn counted_down(g: Game, dt: int, toward_right: bool) -> Game {
    match g.phase {
        Phase::Countdown(c) => {
            let c2 = c.ticked(dt);
            if c2.remaining == 0 {
                Game {
                    phase: Phase::Playing(kickoff(toward_right, false)),
                    serve_timer: PuckDelayTimer { elapsed: 0 },
                    ..g
                }
            } else {
                Game { phase: Phase::Countdown(c2), ..g }
            }
        },
        _ => g,
    }
}

/// Runs the countdown for one frame with a given serve direction.
pub fn advance_countdown(g: &mut Game, dt: u32, toward_right: bool)
    requires
        old(g).wf(),
    ensures
        *final(g) == counted_down(*old(g), dt as int, toward_right),
        final(g).wf(),
{
    if let Phase::Countdown(c0) = g.phase {
        let mut c = c0;
        c.tick(dt);
        if c.remaining == 0 {
            g.phase = Phase::Playing(setup_game(toward_right));
            g.serve_timer = PuckDelayTimer::armed();
        } else {
            g.phase = Phase::Countdown(c);
        }
    }
}

/// Relies on rand's `thread_rng` and `Rng::gen_ratio`: a fair coin for the
/// direction of the first serve.
#[verifier::external_body]
fn coin_flip() -> (r: bool) {
    rand::thread_rng().gen_ratio(1, 2)
}

/// Runs the countdown for one frame; the first serve goes to a random side.
pub fn update_countdown(g: &mut Game, dt: u32)
    requires
        old(g).wf(),
    ensures
        *final(g) == counted_down(*old(g), dt as int, true) || *final(g) == counted_down(
            *old(g),
            dt as int,
            false,
        ),
        final(g).wf(),
{
    let toward_right = coin_flip();
    advance_countdown(g, dt, toward_right);
}

/// The game after the pause key: play toggles its pause flag, and the serve
/// delay advances by `dt` unless play is then paused.
pub open spec fn pause_handled(g: Game, pause_pressed: bool, dt: int) -> Game {
    match g.phase {
        Phase::Playing(m) => {
            let p = if pause_pressed { !m.paused.0 } else { m.paused.0 };
            Game {
                phase: Phase::Playing(Match { paused: GamePaused(p), ..m }),
                serve_timer: if p { g.serve_timer } else { g.serve_timer.ticked(dt) },
                ..g
            }
        },
        _ => g,
    }
}

/// Toggles pause on the pause key and advances the serve delay while not paused.
pub fn handle_pause_input(g: &mut Game, pause_pressed: bool, dt: u32)
    requires
        old(g).wf(),
    ensures
        *final(g) == pause_handled(*old(g), pause_pressed, dt as int),
        final(g).wf(),
{
    if let Phase::Playing(m0) = g.phase {
        let mut m = m0;
        if pause_pressed {
            m.paused = GamePaused(!m.paused.0);
        }
        if !m.paused.0 {
            g.serve_timer.tick(dt);
        }
        g.phase = Phase::Playing(m);
    }
}

/// The game after the pause screen's buttons: Resume unpauses; Restart
/// clears the score, re-arms the serve delay and starts a fresh countdown.
pub open spec fn pause_screen_handled(g: Game, resume_clicked: bool, restart_clicked: bool) -> Game {
    match g.phase {
        Phase::Playing(m) => if !m.paused.0 {
            g
        } else if restart_clicked {
            Game {
                phase: fresh_countdown(),
                score: Score { left: 0, right: 0 },
                serve_timer: PuckDelayTimer { elapsed: 0 },
            }
        } else if resume_clicked {
            Game { phase: Phase::Playing(Match { paused: GamePaused(false), ..m }), ..g }
        } else {
            g
        },
        _ => g,
    }
}

/// Handles the Resume and Restart buttons of the pause screen.
pub fn handle_pause_screen_input(g: &mut Game, resume_clicked: bool, restart_clicked: bool)
    requires
        old(g).wf(),
    ensures
        *final(g) == pause_screen_handled(*old(g), resume_clicked, restart_clicked),
        final(g).wf(),
{
    if let Phase::Playing(m0) = g.phase {
        if m0.paused.0 {
            if restart_clicked {
                g.score = Score::new();
                g.phase = Phase::Countdown(setup_countdown());
                g.serve_timer = PuckDelayTimer::armed();
            } else if resume_clicked {
                let mut m = m0;
                m.paused = GamePaused(false);
                g.phase = Phase::Playing(m);
            }
        }
    }
}

/// One frame of unpaused play: paddles, puck, collisions, then the goal check.
pub open spec fn played(g: Game, input: FrameInput) -> Game {
    match g.phase {
        Phase::Playing(m) => if m.paused.0 {
            g
        } else {
            let m1 = paddles_moved(m, input);
            let m2 = puck_moved(m1, g.serve_timer, input.dt as int);
            let m3 = paddle_checked(m2, g.serve_timer);
            let r = scored(m3, g.score, g.serve_timer);
            Game { phase: Phase::Playing(r.0), score: r.1, serve_timer: r.2 }
        },
        _ => g,
    }
}

/// Runs the motion, collision and scoring systems when play is on and not paused.
pub fn play_frame(g: &mut Game, input: &FrameInput)
    requires
        old(g).wf(),
    ensures
        *final(g) == played(*old(g), *input),
        final(g).wf(),
{
    if let Phase::Playing(m0) = g.phase {
        if !m0.paused.0 {
            let mut m = m0;
            move_paddles(&mut m, input);
            move_puck(&mut m, &g.serve_timer, input.dt);
            check_paddle_collision(&mut m, &g.serve_timer);
            let mut score = g.score;
            let mut timer = g.serve_timer;
            check_score(&mut m, &mut score, &mut timer);
            g.phase = Phase::Playing(m);
            g.score = score;
            g.serve_timer = timer;
        }
    }
}

/// One whole frame: the systems of the current phase, in order.
pub open spec fn stepped(g: Game, input: FrameInput, toward_right: bool) -> Game {
    match g.phase {
        Phase::StartScreen => started(g, input.play_clicked),
        Phase::Countdown(_) => counted_down(g, input.dt as int, toward_right),
        Phase::Playing(_) => played(
            pause_screen_handled(
                pause_handled(g, input.pause_pressed, input.dt as int),
                input.resume_clicked,
                input.restart_clicked,
            ),
            input,
        ),
    }
}

impl Game {
    /// Runs one frame; should the countdown end in it, the first serve goes
    /// toward the right when `toward_right`.
    pub fn step(&mut self, input: &FrameInput, toward_right: bool)
        requires
            old(self).wf(),
        ensures
            *final(self) == stepped(*old(self), *input, toward_right),
            final(self).wf(),
    {
        match self.phase {
            Phase::StartScreen => handle_start_screen_input(self, input.play_clicked),
            Phase::Countdown(_) => advance_countdown(self, input.dt, toward_right),
            Phase::Playing(_) => {
                handle_pause_input(self, input.pause_pressed, input.dt);
                handle_pause_screen_input(self, input.resume_clicked, input.restart_clicked);
                play_frame(self, input);
            },
        }
    }

    /// Runs one frame; a serve at the end of the countdown goes to a random side.
    pub fn frame(&mut self, input: &FrameInput)
        requires
            old(self).wf(),
        ensures
            *final(self) == stepped(*old(self), *input, true) || *final(self) == stepped(
                *old(self),
                *input,
                false,
            ),
            final(self).wf(),
    {
        let toward_right = if let Phase::Countdown(_) = self.phase {
            coin_flip()
        } else {
            true
        };
        self.step(input, toward_right);
    }
}

} // verus!
