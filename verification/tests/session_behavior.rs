use flappy_birb::config::Config;
use flappy_birb::entities::{EntityKind, Gate};
use flappy_birb::session::{GameState, Session};
use flappy_birb::spawner::spawn_interval_ms;
use flappy_birb::timer::Timer;

fn fresh() -> Session {
    Session::new(Config::default()).expect("the stock configuration is well-formed")
}

fn lost_session() -> Session {
    let mut s = fresh();
    s.gates.push(Gate { x: 0, y: 0, ceiling: false });
    s.tick(1, false, false);
    assert_eq!(s.state, GameState::Loss);
    s
}

#[test]
fn fresh_session_is_empty_and_playing() {
    let s = fresh();
    assert_eq!(s.state, GameState::Playing);
    assert_eq!(s.score(), 0);
    assert_eq!(s.flyer_y, 0);
    assert_eq!(s.flyer_velocity, 0);
    assert!(s.gates.is_empty());
    assert_eq!(s.score_timer.target_ms, 750);
    assert_eq!(s.spawn_timer.target_ms, 1500);
}

#[test]
fn invalid_configurations_are_rejected() {
    let mut cfg = Config::default();
    cfg.field_height = 0;
    assert!(Session::new(cfg).is_none());

    let mut cfg = Config::default();
    cfg.score_interval_ms = 0;
    assert!(Session::new(cfg).is_none());

    let mut cfg = Config::default();
    cfg.min_spawn_interval_ms = 4000;
    assert!(Session::new(cfg).is_none());

    let mut cfg = Config::default();
    cfg.gravity = 0;
    assert!(Session::new(cfg).is_none());

    let mut cfg = Config::default();
    cfg.flap_velocity = cfg.max_velocity + 1;
    assert!(Session::new(cfg).is_none());
}

#[test]
fn score_saturates_at_the_counter_capacity() {
    let mut s = fresh();
    s.score = u32::MAX;
    let ev = s.tick(750, false, false);
    assert_eq!(s.score(), u32::MAX);
    assert!(!ev.score_changed);
}

#[test]
fn score_increments_each_period() {
    let mut s = fresh();
    let ev = s.tick(750, false, false);
    assert_eq!(s.score(), 1);
    assert!(ev.score_changed);
    let ev = s.tick(300, false, false);
    assert_eq!(s.score(), 1);
    assert!(!ev.score_changed);
    let ev = s.tick(450, false, false);
    assert_eq!(s.score(), 2);
    assert!(ev.score_changed);
}

#[test]
fn spawn_fires_on_schedule_and_draws_inside_the_bands() {
    let mut s = fresh();
    let ev = s.tick(1000, false, false);
    assert!(!ev.spawned);
    assert!(s.gates.is_empty());
    // The spawn timer's initial target is 1500 ms; this tick crosses it.
    let ev = s.tick(500, false, false);
    assert!(ev.spawned);
    assert_eq!(s.gates.len(), 2);
    let floor = s.gates[0];
    let ceiling = s.gates[1];
    // Both halves spawned at the spawn line (450 units) and advanced by
    // this tick's 50 units of gate travel.
    assert_eq!(floor.x, 400_000);
    assert_eq!(ceiling.x, 400_000);
    assert!(!floor.ceiling);
    assert!(ceiling.ceiling);
    // The floor centre lies in the band around the lower boundary.
    assert!(-275_000 <= floor.y && floor.y < -125_000);
    // The gap between the halves lies in the configured range.
    let gap = ceiling.y - floor.y;
    assert!((400_000..495_000).contains(&gap));
    // After the firing the target is rescaled for the current score: the
    // score clock fired at 750 ms and again at 1500 ms, so the score is 2
    // and the interval is 3000 - 2/2 milliseconds.
    assert_eq!(s.score(), 2);
    assert_eq!(s.spawn_timer.target_ms, 2999);
}

#[test]
fn gates_advance_and_retire_off_screen() {
    let cfg = Config::default();
    let mut s = Session {
        config: cfg,
        state: GameState::Playing,
        score: 0,
        flyer_y: 0,
        flyer_velocity: 0,
        gates: vec![
            Gate { x: -399_000, y: -200_000, ceiling: false },
            Gate { x: 200_000, y: -200_000, ceiling: false },
        ],
        score_timer: Timer::new(cfg.score_interval_ms),
        spawn_timer: Timer::new(cfg.min_spawn_interval_ms),
        prev_flap: false,
        prev_restart: false,
    };
    s.tick(100, false, false);
    // 10 units of travel: the first gate crosses the retire line at -400
    // units and is removed; the second only advances.
    assert_eq!(s.gates.len(), 1);
    assert_eq!(s.gates[0].x, 190_000);
}

#[test]
fn restart_resets_everything() {
    let mut s = lost_session();
    s.tick(100, false, false); // a tick in loss changes nothing but input history
    let before = s.score;
    assert_eq!(before, 0);
    let ev = s.tick(100, false, true);
    assert!(ev.restarted);
    assert_eq!(s.state, GameState::Playing);
    assert_eq!(s.score(), 0);
    assert_eq!(s.flyer_y, 0);
    assert_eq!(s.flyer_velocity, 0);
    assert!(s.gates.is_empty());
    assert_eq!(s.score_timer.elapsed_ms, 0);
    assert_eq!(s.score_timer.target_ms, 750);
    assert_eq!(s.spawn_timer.elapsed_ms, 0);
    assert_eq!(s.spawn_timer.target_ms, 1500);
}

#[test]
fn loss_freezes_the_simulation() {
    let mut s = lost_session();
    let y = s.flyer_y;
    let v = s.flyer_velocity;
    let gates = s.gates.clone();
    let score_elapsed = s.score_timer.elapsed_ms;
    for _ in 0..10 {
        let ev = s.tick(500, true, false);
        assert!(!ev.score_changed && !ev.spawned && !ev.restarted);
    }
    assert_eq!(s.state, GameState::Loss);
    assert_eq!(s.flyer_y, y);
    assert_eq!(s.flyer_velocity, v);
    assert_eq!(s.gates, gates);
    assert_eq!(s.score_timer.elapsed_ms, score_elapsed);
}

#[test]
fn restart_is_edge_triggered() {
    let mut s = lost_session();
    // A first press is a rising edge: the session restarts.
    s.tick(100, false, true);
    assert_eq!(s.state, GameState::Playing);
    let mut s = lost_session();
    s.tick(100, false, true);
    // Already playing again; now lose once more with the input still held.
    s.gates.push(Gate { x: 0, y: 0, ceiling: false });
    s.tick(1, false, true);
    assert_eq!(s.state, GameState::Loss);
    // Still held: no rising edge, no restart.
    s.tick(100, false, true);
    assert_eq!(s.state, GameState::Loss);
    // Released, then pressed: a rising edge restarts.
    s.tick(100, false, false);
    s.tick(100, false, true);
    assert_eq!(s.state, GameState::Playing);
}

#[test]
fn difficulty_ramp_shrinks_to_the_floor() {
    let cfg = Config::default();
    // Score zero: the full maximum interval.
    assert_eq!(spawn_interval_ms(0, &cfg), 3000);
    // The interval loses one millisecond per two points.
    assert_eq!(spawn_interval_ms(1000, &cfg), 2500);
    assert_eq!(spawn_interval_ms(2000, &cfg), 2000);
    // From three thousand points on it clamps to the minimum interval.
    assert_eq!(spawn_interval_ms(3000, &cfg), 1500);
    assert_eq!(spawn_interval_ms(100_000, &cfg), 1500);
    assert_eq!(spawn_interval_ms(u32::MAX, &cfg), 1500);
}

#[test]
fn renderables_list_flyer_then_gates() {
    let mut s = fresh();
    s.gates.push(Gate { x: 300_000, y: -180_000, ceiling: false });
    s.gates.push(Gate { x: 300_000, y: 270_000, ceiling: true });
    let rows = s.renderables();
    assert_eq!(rows.len(), 3);
    assert_eq!(rows[0].kind, EntityKind::Flyer);
    assert_eq!(rows[0].x, 0);
    assert_eq!(rows[0].y, 0);
    assert_eq!(rows[0].half_width, 17_000);
    assert_eq!(rows[0].half_height, 12_000);
    assert_eq!(rows[1].kind, EntityKind::Gate);
    assert_eq!(rows[1].x, 300_000);
    assert_eq!(rows[1].y, -180_000);
    assert_eq!(rows[1].half_width, 26_000);
    assert_eq!(rows[1].half_height, 160_000);
    assert_eq!(rows[2].y, 270_000);
}

#[test]
fn collision_boxes_match_the_detector_geometry() {
    let mut s = fresh();
    s.flyer_y = 10_000;
    s.gates.push(Gate { x: 300_000, y: -180_000, ceiling: false });
    let boxes = s.collision_boxes();
    assert_eq!(boxes.len(), 2);
    assert_eq!(boxes[0].min_x, -17_000);
    assert_eq!(boxes[0].max_x, 17_000);
    assert_eq!(boxes[0].min_y, -2_000);
    assert_eq!(boxes[0].max_y, 22_000);
    assert_eq!(boxes[1].min_x, 274_000);
    assert_eq!(boxes[1].max_x, 326_000);
    assert_eq!(boxes[1].min_y, -340_000);
    assert_eq!(boxes[1].max_y, -20_000);
}
