use air_hockey::components::{Paddle, Puck, Side, Velocity};
use air_hockey::constants::{
    COUNTDOWN_START, GOAL_LINE, LEFT_PADDLE_X, PADDLE_LIMIT, PUCK_LIMIT, PUCK_SPEED,
    RIGHT_PADDLE_X, SERVE_DELAY, WINDOW_WIDTH,
};
use air_hockey::math::isqrt;
use air_hockey::physics::{reflect_off_paddle, step_paddle_y, step_puck, travel};
use air_hockey::resources::{GamePaused, GameState, PuckDelayTimer, Score};
use air_hockey::systems::{
    advance_countdown, check_paddle_collision, check_score, handle_pause_input,
    handle_pause_screen_input, handle_start_screen_input, move_paddles, move_puck, setup_countdown,
    setup_game, update_countdown, FrameInput, Game, Match, Phase,
};

fn idle(dt: u32) -> FrameInput {
    FrameInput {
        dt,
        left_up: false,
        left_down: false,
        right_up: false,
        right_down: false,
        pause_pressed: false,
        play_clicked: false,
        resume_clicked: false,
        restart_clicked: false,
    }
}

fn playing(m: Match, elapsed: u64) -> Game {
    Game {
        phase: Phase::Playing(m),
        score: Score { left: 0, right: 0 },
        serve_timer: PuckDelayTimer { elapsed },
    }
}

fn match_of(g: &Game) -> Match {
    match g.phase {
        Phase::Playing(m) => m,
        _ => panic!("not playing"),
    }
}

#[test]
fn left_goal_scenario() {
    let mut m = setup_game(true);
    m.puck = Puck {
        x: WINDOW_WIDTH / 2 + 5_100,
        y: 0,
        velocity: Velocity { x: PUCK_SPEED, y: 0 },
    };
    m.left.y = 1_000;
    m.right.y = -2_000;
    let mut score = Score { left: 0, right: 0 };
    let mut timer = PuckDelayTimer { elapsed: SERVE_DELAY };
    check_score(&mut m, &mut score, &mut timer);
    assert_eq!(score, Score { left: 1, right: 0 });
    assert_eq!((m.puck.x, m.puck.y), (0, 0));
    assert_eq!(m.puck.velocity, Velocity { x: -PUCK_SPEED, y: 0 });
    assert_eq!(m.left, Paddle { side: Side::Left, x: LEFT_PADDLE_X, y: 0 });
    assert_eq!(m.right, Paddle { side: Side::Right, x: RIGHT_PADDLE_X, y: 0 });
    assert_eq!(timer, PuckDelayTimer { elapsed: 0 });
    assert!(!timer.is_finished());
}

#[test]
fn right_goal_credits_right_and_serves_right() {
    let mut m = setup_game(false);
    m.puck.x = -GOAL_LINE - 1;
    let mut score = Score { left: 3, right: 4 };
    let mut timer = PuckDelayTimer { elapsed: SERVE_DELAY };
    check_score(&mut m, &mut score, &mut timer);
    assert_eq!(score, Score { left: 3, right: 5 });
    assert_eq!(m.puck.velocity, Velocity { x: PUCK_SPEED, y: 0 });
    assert_eq!(timer.elapsed, 0);
}

#[test]
fn goal_line_itself_is_no_goal() {
    for x in [GOAL_LINE, -GOAL_LINE, 0] {
        let mut m = setup_game(true);
        m.puck.x = x;
        let before = m;
        let mut score = Score { left: 0, right: 0 };
        let mut timer = PuckDelayTimer { elapsed: SERVE_DELAY };
        check_score(&mut m, &mut score, &mut timer);
        assert_eq!(m, before);
        assert_eq!(score, Score { left: 0, right: 0 });
        assert_eq!(timer.elapsed, SERVE_DELAY);
    }
}

#[test]
fn score_saturates() {
    let mut m = setup_game(true);
    m.puck.x = GOAL_LINE + 1;
    let mut score = Score { left: u32::MAX, right: 0 };
    let mut timer = PuckDelayTimer { elapsed: SERVE_DELAY };
    check_score(&mut m, &mut score, &mut timer);
    assert_eq!(score.left, u32::MAX);
}

#[test]
fn goal_is_registered_once() {
    let mut m = setup_game(true);
    m.puck.x = GOAL_LINE - 500;
    let mut g = playing(m, SERVE_DELAY);
    g.step(&idle(16_667), true);
    assert_eq!(g.score, Score { left: 1, right: 0 });
    let after_goal = match_of(&g);
    assert_eq!((after_goal.puck.x, after_goal.puck.y), (0, 0));
    g.step(&idle(16_667), true);
    assert_eq!(g.score, Score { left: 1, right: 0 });
    assert_eq!(match_of(&g).puck, after_goal.puck);
}

#[test]
fn countdown_scenario() {
    let mut g = Game::new();
    assert_eq!(g.state(), GameState::StartScreen);
    handle_start_screen_input(&mut g, true);
    assert_eq!(g.state(), GameState::Countdown);
    assert_eq!(g.countdown_remaining(), Some(3));
    assert_eq!(setup_countdown().remaining, COUNTDOWN_START);
    advance_countdown(&mut g, 1_000_000, true);
    assert_eq!(g.countdown_remaining(), Some(2));
    advance_countdown(&mut g, 1_000_000, true);
    assert_eq!(g.countdown_remaining(), Some(1));
    advance_countdown(&mut g, 1_000_000, true);
    assert_eq!(g.state(), GameState::Playing);
    assert_eq!(g.countdown_remaining(), None);
    assert_eq!(match_of(&g), setup_game(true));
    assert_eq!(g.serve_timer.elapsed, 0);
}

#[test]
fn countdown_keeps_partial_steps() {
    let mut g = Game::new();
    handle_start_screen_input(&mut g, true);
    advance_countdown(&mut g, 600_000, false);
    assert_eq!(g.countdown_remaining(), Some(3));
    advance_countdown(&mut g, 600_000, false);
    assert_eq!(g.countdown_remaining(), Some(2));
    match g.phase {
        Phase::Countdown(c) => assert_eq!(c.elapsed, 200_000),
        _ => panic!("not counting down"),
    }
}

#[test]
fn start_screen_waits_for_play() {
    let mut g = Game::new();
    handle_start_screen_input(&mut g, false);
    assert_eq!(g.state(), GameState::StartScreen);
    let mut input = idle(1_000_000);
    g.step(&input, true);
    assert_eq!(g.state(), GameState::StartScreen);
    input.play_clicked = true;
    g.step(&input, true);
    assert_eq!(g.state(), GameState::Countdown);
}

#[test]
fn random_serve_is_horizontal_at_puck_speed() {
    let mut g = Game::new();
    handle_start_screen_input(&mut g, true);
    for _ in 0..3 {
        update_countdown(&mut g, 1_000_000);
    }
    let m = match_of(&g);
    assert_eq!(m.puck.velocity.y, 0);
    assert!(m.puck.velocity.x == PUCK_SPEED || m.puck.velocity.x == -PUCK_SPEED);
    assert_eq!((m.puck.x, m.puck.y), (0, 0));
}

#[test]
fn pause_blocks_motion_scenario() {
    let mut g = playing(setup_game(true), SERVE_DELAY);
    g.step(&FrameInput { pause_pressed: true, ..idle(16_667) }, true);
    assert!(g.is_paused());
    let before = g;
    let held_up = FrameInput { left_up: true, right_up: true, ..idle(16_667) };
    for _ in 0..10 {
        g.step(&held_up, true);
    }
    assert_eq!(match_of(&g).left.y, match_of(&before).left.y);
    assert_eq!(g, before);
}

#[test]
fn pause_toggle_and_resume() {
    let mut g = playing(setup_game(true), 0);
    handle_pause_input(&mut g, true, 500_000);
    assert!(g.is_paused());
    assert_eq!(g.serve_timer.elapsed, 0);
    handle_pause_input(&mut g, true, 500_000);
    assert!(!g.is_paused());
    assert_eq!(g.serve_timer.elapsed, 500_000);
    handle_pause_input(&mut g, true, 0);
    handle_pause_screen_input(&mut g, true, false);
    assert!(!g.is_paused());
    assert_eq!(g.state(), GameState::Playing);
}

#[test]
fn restart_resets_score_and_counts_down() {
    let mut g = playing(setup_game(true), SERVE_DELAY);
    g.score = Score { left: 2, right: 7 };
    handle_pause_screen_input(&mut g, false, true);
    assert_eq!(g.state(), GameState::Playing);
    handle_pause_input(&mut g, true, 0);
    handle_pause_screen_input(&mut g, false, true);
    assert_eq!(g.state(), GameState::Countdown);
    assert_eq!(g.countdown_remaining(), Some(3));
    assert_eq!(g.score, Score { left: 0, right: 0 });
    assert_eq!(g.serve_timer.elapsed, 0);
    assert!(!g.is_paused());
}

#[test]
fn serve_delay_gates_motion() {
    let mut g = playing(setup_game(true), 0);
    for _ in 0..3 {
        g.step(&idle(600_000), true);
        assert_eq!(match_of(&g).puck, setup_game(true).puck);
    }
    g.step(&idle(199_999), true);
    assert_eq!(match_of(&g).puck, setup_game(true).puck);
    g.step(&idle(100_000), true);
    assert_eq!(g.serve_timer.elapsed, SERVE_DELAY);
    assert_eq!(match_of(&g).puck.x, 6_000);
}

#[test]
fn puck_stays_while_delay_runs() {
    let mut m = setup_game(false);
    let timer = PuckDelayTimer { elapsed: SERVE_DELAY - 1 };
    move_puck(&mut m, &timer, 1_000_000);
    check_paddle_collision(&mut m, &timer);
    assert_eq!(m, setup_game(false));
}

#[test]
fn serve_timer_tick_stops_at_delay() {
    let mut t = PuckDelayTimer::armed();
    t.tick(1_500_000);
    assert_eq!(t.elapsed, 1_500_000);
    assert!(!t.is_finished());
    t.tick(1_500_000);
    assert_eq!(t.elapsed, SERVE_DELAY);
    assert!(t.is_finished());
}

#[test]
fn paddle_clamps_to_edges() {
    assert_eq!(step_paddle_y(25_000, true, false, 1_000_000), PADDLE_LIMIT);
    assert_eq!(step_paddle_y(-25_000, false, true, 1_000_000), -PADDLE_LIMIT);
    assert_eq!(step_paddle_y(0, true, false, 100_000), 5_500);
    assert_eq!(step_paddle_y(0, false, true, 100_000), -5_500);
    assert_eq!(step_paddle_y(1_234, true, true, 100_000), 1_234);
    assert_eq!(step_paddle_y(i64::MAX, false, false, 0), PADDLE_LIMIT);
    assert_eq!(step_paddle_y(i64::MIN, true, false, u32::MAX), -PADDLE_LIMIT);
}

#[test]
fn paddles_use_their_own_keys() {
    let mut m = setup_game(true);
    let input = FrameInput { left_up: true, right_down: true, ..idle(100_000) };
    move_paddles(&mut m, &input);
    assert_eq!(m.left.y, 5_500);
    assert_eq!(m.right.y, -5_500);
    assert_eq!(m.left.x, LEFT_PADDLE_X);
    assert_eq!(m.right.x, RIGHT_PADDLE_X);
}

#[test]
fn travel_rounds_toward_zero() {
    assert_eq!(travel(60_000, 16_667), 1_000);
    assert_eq!(travel(-60_000, 16_667), -1_000);
    assert_eq!(travel(3, 1), 0);
    assert_eq!(travel(-3, 1), 0);
}

#[test]
fn puck_bounces_off_walls() {
    let p = Puck { x: 0, y: PUCK_LIMIT - 100, velocity: Velocity { x: 1_000, y: 60_000 } };
    let r = step_puck(&p, 100_000);
    assert_eq!(r, Puck { x: 100, y: PUCK_LIMIT, velocity: Velocity { x: 1_000, y: -60_000 } });
    let p = Puck { x: 0, y: -PUCK_LIMIT + 100, velocity: Velocity { x: 0, y: -60_000 } };
    let r = step_puck(&p, 100_000);
    assert_eq!(r, Puck { x: 0, y: -PUCK_LIMIT, velocity: Velocity { x: 0, y: 60_000 } });
    let p = Puck { x: 5, y: 7, velocity: Velocity { x: -60_000, y: 30_000 } };
    let r = step_puck(&p, 10_000);
    assert_eq!(r, Puck { x: -595, y: 307, velocity: p.velocity });
}

#[test]
fn straight_hit_reverses() {
    let p = Puck { x: -30_000, y: 100, velocity: Velocity { x: -PUCK_SPEED, y: 0 } };
    let r = reflect_off_paddle(&p, LEFT_PADDLE_X, 100);
    assert_eq!(r, Velocity { x: PUCK_SPEED, y: 0 });
    let p = Puck { x: 30_000, y: 0, velocity: Velocity { x: 1_234, y: 0 } };
    assert_eq!(reflect_off_paddle(&p, RIGHT_PADDLE_X, 0), Velocity { x: -PUCK_SPEED, y: 0 });
}

#[test]
fn angled_hit_keeps_speed() {
    let p = Puck { x: -31_000, y: 3_000, velocity: Velocity { x: -42_426, y: -42_426 } };
    let r = reflect_off_paddle(&p, LEFT_PADDLE_X, 0);
    let s = PUCK_SPEED as i128;
    let sq = |v: i64| (v as i128) * (v as i128);
    assert!(sq(r.x) + sq(r.y) < (s + 1) * (s + 1));
    assert!(sq(r.x.abs() + 1) + sq(r.y.abs() + 1) > s * s);
    assert!(r.x > 0);
    assert_ne!(r, p.velocity);
}

#[test]
fn moving_away_is_left_alone() {
    let p = Puck { x: -31_000, y: 0, velocity: Velocity { x: PUCK_SPEED, y: 0 } };
    assert_eq!(reflect_off_paddle(&p, LEFT_PADDLE_X, 0), p.velocity);
    let p = Puck { x: -31_000, y: 0, velocity: Velocity { x: 0, y: PUCK_SPEED } };
    assert_eq!(reflect_off_paddle(&p, LEFT_PADDLE_X, 0), p.velocity);
}

#[test]
fn coincident_or_distant_centres_do_not_collide() {
    let p = Puck { x: LEFT_PADDLE_X, y: 0, velocity: Velocity { x: -PUCK_SPEED, y: 0 } };
    assert_eq!(reflect_off_paddle(&p, LEFT_PADDLE_X, 0), p.velocity);
    let p = Puck { x: LEFT_PADDLE_X + 7_250, y: 0, velocity: Velocity { x: -PUCK_SPEED, y: 0 } };
    assert_eq!(reflect_off_paddle(&p, LEFT_PADDLE_X, 0), p.velocity);
    let p = Puck { x: LEFT_PADDLE_X + 7_249, y: 0, velocity: Velocity { x: -PUCK_SPEED, y: 0 } };
    assert_eq!(reflect_off_paddle(&p, LEFT_PADDLE_X, 0), Velocity { x: PUCK_SPEED, y: 0 });
}

#[test]
fn collision_check_uses_both_paddles() {
    let mut m = setup_game(true);
    m.right.y = 0;
    m.puck = Puck { x: 30_000, y: 0, velocity: Velocity { x: PUCK_SPEED, y: 0 } };
    let timer = PuckDelayTimer { elapsed: SERVE_DELAY };
    check_paddle_collision(&mut m, &timer);
    assert_eq!(m.puck.velocity, Velocity { x: -PUCK_SPEED, y: 0 });
    assert_eq!((m.puck.x, m.puck.y), (30_000, 0));
}

#[test]
fn integer_square_roots() {
    assert_eq!(isqrt(0), 0);
    assert_eq!(isqrt(1), 1);
    assert_eq!(isqrt(15), 3);
    assert_eq!(isqrt(16), 4);
    assert_eq!(isqrt(u128::MAX), u64::MAX as u128);
}

#[test]
fn new_game_starts_on_start_screen() {
    let g = Game::new();
    assert_eq!(g.state(), GameState::StartScreen);
    assert!(!g.is_paused());
    assert_eq!(g.score, Score::new());
    assert_eq!(g.countdown_remaining(), None);
    assert_eq!(GamePaused(false), match_of(&playing(setup_game(true), 0)).paused);
}
