use flappy_birb::config::Config;
use flappy_birb::session::{GameState, Session};
use flappy_birb::timer::Timer;

fn fresh() -> Session {
    Session::new(Config::default()).expect("the stock configuration is well-formed")
}

#[test]
fn gravity_only_five_ticks_match_euler_sum() {
    // Gravity 200 units/s², dt = 0.1 s applied five times with no flap:
    // velocity drops by 100 units/s in all; each tick moves the flyer by the
    // new velocity times dt, so y = -(2 + 4 + 6 + 8 + 10) = -30 units.
    let mut s = fresh();
    for _ in 0..5 {
        s.tick(100, false, false);
    }
    assert_eq!(s.flyer_velocity, -100_000);
    assert_eq!(s.flyer_y, -30_000);
    assert_eq!(s.state, GameState::Playing);
}

#[test]
fn velocity_clamps_at_minimum() {
    // 20 units/s of fall speed per tick: after 13 ticks the unclamped value
    // would be -260 units/s; the clamp holds it at -250.
    let mut s = fresh();
    for _ in 0..13 {
        s.tick(100, false, false);
    }
    assert_eq!(s.flyer_velocity, -250_000);
    for _ in 0..10 {
        s.tick(100, false, false);
    }
    assert_eq!(s.flyer_velocity, -250_000);
}

#[test]
fn flap_resets_velocity_in_full() {
    let mut s = fresh();
    for _ in 0..5 {
        s.tick(100, false, false);
    }
    assert_eq!(s.flyer_velocity, -100_000);
    // A flap edge resets the velocity to 150 units/s before gravity takes
    // its 20 units/s within the same tick.
    s.tick(100, true, false);
    assert_eq!(s.flyer_velocity, 130_000);
}

#[test]
fn flap_is_edge_triggered() {
    let mut s = fresh();
    s.tick(100, true, false);
    assert_eq!(s.flyer_velocity, 130_000);
    // The flap input stays held: no second reset, gravity alone acts.
    s.tick(100, true, false);
    assert_eq!(s.flyer_velocity, 110_000);
    // Released and pressed again: a new edge, a new reset.
    s.tick(100, false, false);
    s.tick(100, true, false);
    assert_eq!(s.flyer_velocity, 130_000);
}

#[test]
fn position_update_skipped_at_top_boundary() {
    let cfg = Config::default();
    // Top bound for the stock field: 400/2 - 12 = 188 units.
    let mut s = Session {
        config: cfg,
        state: GameState::Playing,
        score: 0,
        flyer_y: 188_000,
        flyer_velocity: 250_000,
        gates: Vec::new(),
        score_timer: Timer::new(cfg.score_interval_ms),
        spawn_timer: Timer::new(cfg.min_spawn_interval_ms),
        prev_flap: false,
        prev_restart: false,
    };
    s.tick(100, false, false);
    // Still moving up after gravity (230 units/s), pressed against the top:
    // the position update is skipped.
    assert_eq!(s.flyer_velocity, 230_000);
    assert_eq!(s.flyer_y, 188_000);
}

#[test]
fn position_update_skipped_at_bottom_boundary() {
    let cfg = Config::default();
    let mut s = Session {
        config: cfg,
        state: GameState::Playing,
        score: 0,
        flyer_y: -188_000,
        flyer_velocity: -250_000,
        gates: Vec::new(),
        score_timer: Timer::new(cfg.score_interval_ms),
        spawn_timer: Timer::new(cfg.min_spawn_interval_ms),
        prev_flap: false,
        prev_restart: false,
    };
    s.tick(100, false, false);
    assert_eq!(s.flyer_velocity, -250_000);
    assert_eq!(s.flyer_y, -188_000);
}
