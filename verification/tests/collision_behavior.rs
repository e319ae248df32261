use flappy_birb::config::Config;
use flappy_birb::entities::Gate;
use flappy_birb::geom::{aabb_overlap, Aabb};
use flappy_birb::session::{GameState, Session};
use flappy_birb::timer::Timer;

fn session_with_gate(gate: Gate) -> Session {
    let cfg = Config::default();
    Session {
        config: cfg,
        state: GameState::Playing,
        score: 0,
        flyer_y: 0,
        flyer_velocity: 0,
        gates: vec![gate],
        score_timer: Timer::new(cfg.score_interval_ms),
        spawn_timer: Timer::new(cfg.min_spawn_interval_ms),
        prev_flap: false,
        prev_restart: false,
    }
}

#[test]
fn overlap_is_symmetric() {
    let gate = Aabb { min_x: 0, min_y: -10, max_x: 20, max_y: 10 };
    let inside = Aabb { min_x: 5, min_y: -5, max_x: 15, max_y: 5 };
    let outside = Aabb { min_x: 25, min_y: -5, max_x: 35, max_y: 5 };
    assert_eq!(aabb_overlap(&gate, &inside), aabb_overlap(&inside, &gate));
    assert_eq!(aabb_overlap(&gate, &outside), aabb_overlap(&outside, &gate));
}

#[test]
fn contained_box_overlaps() {
    // A flyer box strictly inside a gate box: overlap on both axes.
    let gate = Aabb { min_x: 0, min_y: -10, max_x: 20, max_y: 10 };
    let flyer = Aabb { min_x: 5, min_y: -5, max_x: 15, max_y: 5 };
    assert!(aabb_overlap(&flyer, &gate));
}

#[test]
fn disjoint_horizontal_spans_never_overlap() {
    // The same gate box, but the flyer's horizontal span lies wholly to the
    // right: no overlap regardless of the vertical alignment.
    let gate = Aabb { min_x: 0, min_y: -10, max_x: 20, max_y: 10 };
    let flyer = Aabb { min_x: 25, min_y: -5, max_x: 35, max_y: 5 };
    assert!(!aabb_overlap(&flyer, &gate));
    let tall_flyer = Aabb { min_x: 25, min_y: -1_000_000, max_x: 35, max_y: 1_000_000 };
    assert!(!aabb_overlap(&tall_flyer, &gate));
}

#[test]
fn touching_edges_do_not_overlap() {
    // The strict open-interval test: boxes sharing only an edge do not hit.
    let a = Aabb { min_x: 0, min_y: 0, max_x: 10, max_y: 10 };
    let b = Aabb { min_x: 10, min_y: 0, max_x: 20, max_y: 10 };
    assert!(!aabb_overlap(&a, &b));
}

#[test]
fn overlapping_gate_causes_loss_on_the_same_tick() {
    // A gate centred on the flyer: a guaranteed hit; the state machine must
    // reach loss within the very tick of the overlap.
    let mut s = session_with_gate(Gate { x: 0, y: 0, ceiling: false });
    let ev = s.tick(1, false, false);
    assert_eq!(s.state, GameState::Loss);
    assert!(ev.just_lost);
    assert!(s.loss_banner());
}

#[test]
fn clear_gate_keeps_playing() {
    // Gate span [24, 76] units to the right of the flyer's span [-17, 17]:
    // no overlap, play goes on.
    let mut s = session_with_gate(Gate { x: 50_000, y: 0, ceiling: false });
    let ev = s.tick(1, false, false);
    assert_eq!(s.state, GameState::Playing);
    assert!(!ev.just_lost);
    assert!(!s.loss_banner());
}
