//! The simulation session: the entity store, both timers, the score, the
//! game state machine, and the per-frame tick that drives them in a fixed
//! order.

use vstd::prelude::*;

use crate::config::{
    Config, CONFIG_LIMIT, FLYER_HALF_HEIGHT, GAP_SPREAD, MAX_TICK_MS, MIN_GAP, RETIRE_MARGIN,
    SPAWN_MARGIN,
};
use crate::entities::{flyer_box, gate_box, gate_hits_flyer, gate_in_range, Gate};
use crate::entities::{lemma_gate_hit_is_box_overlap, EntityKind, Renderable};
use crate::geom::Aabb;
use crate::geom::aabb_overlap;
use crate::physics::{gravity_velocity, position_after};
use crate::physics::{
    integrate_gravity, integrate_position, lemma_position_step_contained, lemma_product_in_range,
};
use crate::spawner::{draw_floor_y, draw_gap, spawn_interval_ms, spawn_interval_spec};
use crate::timer::{acc_after, fires, Timer};
use vstd::arithmetic::div_mod::lemma_div_is_ordered;

verus! {

/// The game's two states: active play, or loss awaiting a restart.
#[derive(Clone, Copy, Debug, PartialEq, Eq, Structural, Hash)]
pub enum GameState {
    /// The simulation is running: physics, spawning, scoring and collision
    /// detection all advance each tick.
    Playing,
    /// A collision happened; every subsystem is frozen until a restart.
    Loss,
}

impl Default for GameState {
    /// A session starts in active play.
    fn default() -> (r: GameState)
        ensures
            r is Playing,
    {
        GameState::Playing
    }
}

/// One whole simulation session: all mutable state lives here and is
/// advanced only by [`Session::tick`] and the step methods it composes.
pub struct Session {
    /// The constants this session was started with.
    pub config: Config,
    /// Playing or Loss.
    pub state: GameState,
    /// Points scored so far; reset to zero on restart.
    pub score: u32,
    /// The flyer's vertical centre, milliunits. Its horizontal centre is
    /// fixed at zero.
    pub flyer_y: i64,
    /// The flyer's vertical velocity, milliunits per second.
    pub flyer_velocity: i64,
    /// Every live gate, in spawn order.
    pub gates: Vec<Gate>,
    /// Fires once per scoring period.
    pub score_timer: Timer,
    /// Fires once per spawn period; its target shrinks with the score.
    pub spawn_timer: Timer,
    /// Whether the flap input was down on the previous tick, for edge
    /// detection.
    pub prev_flap: bool,
    /// Whether the restart input was down on the previous tick, for edge
    /// detection.
    pub prev_restart: bool,
}

/// A score bumped by one point, saturating at the counter's capacity.
pub open spec fn saturating_inc(score: int) -> int {
    if score < 0xffff_ffff {
        score + 1
    } else {
        score
    }
}

/// A session exactly as a fresh start leaves it: playing, score zero, the
/// flyer centred and at rest, no gates, both timers at their initial
/// targets with empty accumulators, and no input history.
pub open spec fn is_fresh(s: Session, cfg: Config) -> bool {
    &&& s.config == cfg
    &&& s.state is Playing
    &&& s.score == 0
    &&& s.flyer_y == 0
    &&& s.flyer_velocity == 0
    &&& s.gates@.len() == 0
    &&& s.score_timer.elapsed_ms == 0
    &&& s.score_timer.target_ms == cfg.score_interval_ms
    &&& s.spawn_timer.elapsed_ms == 0
    &&& s.spawn_timer.target_ms == cfg.min_spawn_interval_ms
    &&& s.prev_flap == false
    &&& s.prev_restart == false
}

/// Whether any gate in `gates` strictly overlaps a flyer centred at
/// `flyer_y`.
pub open spec fn any_gate_hit_in(gates: Seq<Gate>, flyer_y: int) -> bool {
    exists|i: int| 0 <= i < gates.len() && gate_hits_flyer(#[trigger] gates[i], flyer_y)
}

/// Whether any live gate's box strictly overlaps the flyer's box.
pub open spec fn any_gate_hit(s: Session) -> bool {
    any_gate_hit_in(s.gates@, s.flyer_y as int)
}

/// A gate built from mathematical coordinates; exact whenever the
/// coordinates fit in a gate's fields, as every session value does.
pub open spec fn gate_at(x: int, y: int, ceiling: bool) -> Gate {
    Gate { x: x as i64, y: y as i64, ceiling }
}

/// Whether a floor-centre and gap pair lies in the ranges the spawner
/// draws from.
pub open spec fn draws_ok(cfg: Config, floor_y: int, gap: int) -> bool {
    &&& cfg.band_low() <= floor_y < cfg.band_high()
    &&& MIN_GAP <= gap < MIN_GAP + GAP_SPREAD
}

/// What one spawn firing appends: a floor gate at the drawn centre and
/// its mirrored ceiling partner `gap` milliunits above, both at the spawn
/// line.
pub open spec fn spawned_pair(cfg: Config, floor_y: int, gap: int) -> Seq<Gate> {
    seq![
        gate_at(cfg.spawn_x(), floor_y, false),
        gate_at(cfg.spawn_x(), floor_y + gap, true),
    ]
}

/// A gate advanced `dx` milliunits leftward.
pub open spec fn gate_advanced(g: Gate, dx: int) -> Gate {
    Gate { x: (g.x - dx) as i64, y: g.y, ceiling: g.ceiling }
}

/// Gates after one advance step: each moves `dx` leftward and those past
/// the retire line are removed; the order of the rest is kept.
pub open spec fn advance_retire(gates: Seq<Gate>, dx: int, retire_x: int) -> Seq<Gate>
    decreases gates.len(),
{
    if gates.len() == 0 {
        Seq::empty()
    } else {
        let rest = advance_retire(gates.drop_last(), dx, retire_x);
        let moved = gate_advanced(gates.last(), dx);
        if moved.x >= retire_x {
            rest.push(moved)
        } else {
            rest
        }
    }
}

/// How far gates travel leftward in one tick of `dt_ms`.
pub open spec fn dx_of(cfg: Config, dt_ms: int) -> int {
    cfg.gate_speed * dt_ms / 1000
}

/// Whether this tick sees a rising edge of the flap input.
pub open spec fn flap_edge(pre: Session, flap_down: bool) -> bool {
    flap_down && !pre.prev_flap
}

/// Whether this tick sees a rising edge of the restart input.
pub open spec fn restart_edge(pre: Session, restart_down: bool) -> bool {
    restart_down && !pre.prev_restart
}

/// Whether the score timer fires during a tick of `dt_ms` from state `pre`.
pub open spec fn score_fired(pre: Session, dt_ms: int) -> bool {
    fires(pre.score_timer.elapsed_ms as int, dt_ms, pre.score_timer.target_ms as int)
}

/// Whether the spawn timer fires during a tick of `dt_ms` from state `pre`.
pub open spec fn spawn_fired(pre: Session, dt_ms: int) -> bool {
    fires(pre.spawn_timer.elapsed_ms as int, dt_ms, pre.spawn_timer.target_ms as int)
}

/// The score after the tick's score-clock step.
pub open spec fn score_after_tick(pre: Session, dt_ms: int) -> int {
    if score_fired(pre, dt_ms) {
        saturating_inc(pre.score as int)
    } else {
        pre.score as int
    }
}

/// The flyer's velocity after the tick's input and gravity steps: a flap
/// edge first resets it to the flap velocity, then gravity acts and the
/// clamp applies.
pub open spec fn velocity_after_tick(pre: Session, dt_ms: int, flap_down: bool) -> int {
    let v0 = if flap_edge(pre, flap_down) {
        pre.config.flap_velocity as int
    } else {
        pre.flyer_velocity as int
    };
    gravity_velocity(
        v0,
        pre.config.gravity as int,
        dt_ms,
        pre.config.min_velocity as int,
        pre.config.max_velocity as int,
    )
}

/// Full description of one tick taken in the playing state: the score
/// clock advances first, then the flap edge and gravity act on the
/// velocity, the position update follows, the spawner may append one drawn
/// gate pair, all gates advance and retire, and finally the state falls to
/// loss exactly when some gate overlaps the flyer.
pub open spec fn playing_tick_ok(
    pre: Session,
    post: Session,
    dt_ms: int,
    flap_down: bool,
    restart_down: bool,
) -> bool {
    &&& post.config == pre.config
    &&& post.score as int == score_after_tick(pre, dt_ms)
    &&& post.score_timer.target_ms == pre.score_timer.target_ms
    &&& post.score_timer.elapsed_ms as int == acc_after(
        pre.score_timer.elapsed_ms as int,
        dt_ms,
        pre.score_timer.target_ms as int,
    )
    &&& post.flyer_velocity as int == velocity_after_tick(pre, dt_ms, flap_down)
    &&& post.flyer_y as int == position_after(
        pre.flyer_y as int,
        post.flyer_velocity as int,
        dt_ms,
        pre.config.top_bound(),
    )
    &&& post.spawn_timer.elapsed_ms as int == acc_after(
        pre.spawn_timer.elapsed_ms as int,
        dt_ms,
        pre.spawn_timer.target_ms as int,
    )
    &&& post.spawn_timer.target_ms as int == if spawn_fired(pre, dt_ms) {
        spawn_interval_spec(
            score_after_tick(pre, dt_ms),
            pre.config.min_spawn_interval_ms as int,
            pre.config.max_spawn_interval_ms as int,
        )
    } else {
        pre.spawn_timer.target_ms as int
    }
    &&& if spawn_fired(pre, dt_ms) {
        exists|fy: int, gap: int|
            draws_ok(pre.config, fy, gap) && post.gates@ == advance_retire(
                pre.gates@ + spawned_pair(pre.config, fy, gap),
                dx_of(pre.config, dt_ms),
                pre.config.retire_x(),
            )
    } else {
        post.gates@ == advance_retire(
            pre.gates@,
            dx_of(pre.config, dt_ms),
            pre.config.retire_x(),
        )
    }
    &&& post.state == (if any_gate_hit(post) {
        GameState::Loss
    } else {
        GameState::Playing
    })
    &&& post.prev_flap == flap_down
    &&& post.prev_restart == restart_down
}

/// Full description of one tick taken in the loss state: on a rising
/// restart edge the session is reset to a fresh start (with the input
/// history of this tick); otherwise nothing but the input history moves.
pub open spec fn loss_tick_ok(
    pre: Session,
    post: Session,
    flap_down: bool,
    restart_down: bool,
) -> bool {
    if restart_edge(pre, restart_down) {
        &&& post.config == pre.config
        &&& post.state is Playing
        &&& post.score == 0
        &&& post.flyer_y == 0
        &&& post.flyer_velocity == 0
        &&& post.gates@.len() == 0
        &&& post.score_timer.elapsed_ms == 0
        &&& post.score_timer.target_ms == pre.config.score_interval_ms
        &&& post.spawn_timer.elapsed_ms == 0
        &&& post.spawn_timer.target_ms == pre.config.min_spawn_interval_ms
        &&& post.prev_flap == flap_down
        &&& post.prev_restart == restart_down
    } else {
        post == (Session { prev_flap: flap_down, prev_restart: restart_down, ..pre })
    }
}

/// What one tick reported back to the host: which notifications it should
/// emit this frame.
#[derive(Clone, Copy, Debug, PartialEq, Eq, Structural)]
pub struct TickEvents {
    /// The score changed this tick; the host should refresh its display.
    pub score_changed: bool,
    /// A new gate pair was spawned this tick.
    pub spawned: bool,
    /// The state machine fell from playing to loss this tick.
    pub just_lost: bool,
    /// A restart was consumed this tick and play resumed afresh.
    pub restarted: bool,
}

impl Session {
    /// The session invariant: a well-formed configuration, well-formed
    /// timers, the velocity inside its clamp, the flyer within the field
    /// bounds extended by one tick's maximal travel, and every gate within
    /// the spawn-to-retire range.
    pub open spec fn wf(self) -> bool {
        &&& self.config.wf()
        &&& self.score_timer.wf()
        &&& self.spawn_timer.wf()
        &&& self.config.min_velocity <= self.flyer_velocity <= self.config.max_velocity
        &&& -self.config.top_bound() - self.config.bound_slack() <= self.flyer_y
        &&& self.flyer_y <= self.config.top_bound() + self.config.bound_slack()
        &&& forall|i: int|
            0 <= i < self.gates@.len() ==> gate_in_range(self.config, #[trigger] self.gates@[i])
    }

    /// Starts a session on the given configuration; rejects one that is not
    /// well-formed. A fresh session is in active play with nothing spawned
    /// and nothing scored.
    pub fn new(cfg: Config) -> (r: Option<Session>)
        ensures
            match r {
                Some(s) => cfg.wf() && s.wf() && is_fresh(s, cfg),
                None => !cfg.wf(),
            },
    {
        if cfg.valid() {
            Some(
                Session {
                    config: cfg,
                    state: GameState::Playing,
                    score: 0,
                    flyer_y: 0,
                    flyer_velocity: 0,
                    gates: Vec::new(),
                    score_timer: Timer::new(cfg.score_interval_ms),
                    spawn_timer: Timer::new(cfg.min_spawn_interval_ms),
                    prev_flap: false,
                    prev_restart: false,
                },
            )
        } else {
            None
        }
    }

    /// Advances the score timer and, on each firing, increments the score
    /// by one point (saturating at the counter's capacity). Returns whether
    /// the timer fired.
    pub fn score_tick(&mut self, dt_ms: u64) -> (fired: bool)
        requires
            old(self).wf(),
            old(self).state is Playing,
            dt_ms <= MAX_TICK_MS,
        ensures
            final(self).wf(),
            fired == fires(
                old(self).score_timer.elapsed_ms as int,
                dt_ms as int,
                old(self).score_timer.target_ms as int,
            ),
            final(self).score as int == if fired {
                saturating_inc(old(self).score as int)
            } else {
                old(self).score as int
            },
            final(self).score_timer.target_ms == old(self).score_timer.target_ms,
            final(self).score_timer.elapsed_ms as int == acc_after(
                old(self).score_timer.elapsed_ms as int,
                dt_ms as int,
                old(self).score_timer.target_ms as int,
            ),
            *final(self) == (Session {
                score: final(self).score,
                score_timer: final(self).score_timer,
                ..*old(self)
            }),
    {
        let fired = self.score_timer.tick(dt_ms);
        if fired && self.score < 0xffff_ffff_u32 {
            self.score = self.score + 1;
        }
        fired
    }

    /// A flap: resets the flyer's vertical velocity to the configured flap
    /// velocity, regardless of its current fall speed.
    pub fn flap(&mut self)
        requires
            old(self).wf(),
            old(self).state is Playing,
        ensures
            final(self).wf(),
            final(self).flyer_velocity == old(self).config.flap_velocity,
            *final(self) == (Session { flyer_velocity: final(self).flyer_velocity, ..*old(self) }),
    {
        self.flyer_velocity = self.config.flap_velocity;
    }

    /// Applies gravity over `dt_ms` to the flyer's velocity and clamps the
    /// result into the configured range.
    pub fn apply_gravity(&mut self, dt_ms: u64)
        requires
            old(self).wf(),
            old(self).state is Playing,
            dt_ms <= MAX_TICK_MS,
        ensures
            final(self).wf(),
            final(self).flyer_velocity as int == gravity_velocity(
                old(self).flyer_velocity as int,
                old(self).config.gravity as int,
                dt_ms as int,
                old(self).config.min_velocity as int,
                old(self).config.max_velocity as int,
            ),
            *final(self) == (Session { flyer_velocity: final(self).flyer_velocity, ..*old(self) }),
    {
        self.flyer_velocity = integrate_gravity(
            self.flyer_velocity,
            self.config.gravity,
            dt_ms,
            self.config.min_velocity,
            self.config.max_velocity,
        );
    }

    /// Moves the flyer by its velocity over `dt_ms`, skipping the update
    /// when the flyer is pressed against a field boundary and still moving
    /// outward.
    pub fn apply_velocity(&mut self, dt_ms: u64)
        requires
            old(self).wf(),
            old(self).state is Playing,
            dt_ms <= MAX_TICK_MS,
        ensures
            final(self).wf(),
            final(self).flyer_y as int == position_after(
                old(self).flyer_y as int,
                old(self).flyer_velocity as int,
                dt_ms as int,
                old(self).config.top_bound(),
            ),
            *final(self) == (Session { flyer_y: final(self).flyer_y, ..*old(self) }),
    {
        let top: i64 = self.config.field_height / 2 - FLYER_HALF_HEIGHT;
        proof {
            lemma_position_step_contained(
                self.flyer_y as int,
                self.flyer_velocity as int,
                dt_ms as int,
                self.config.top_bound(),
                self.config.vel_limit(),
            );
        }
        self.flyer_y = integrate_position(self.flyer_y, self.flyer_velocity, dt_ms, top);
    }

    /// A restart out of the loss state: removes every gate, recentres the
    /// flyer at rest, resets the score to zero and both timers to their
    /// initial targets, and re-enters active play — exactly the state of a
    /// fresh session.
    pub fn restart(&mut self)
        requires
            old(self).wf(),
            old(self).state is Loss,
        ensures
            final(self).wf(),
            final(self).config == old(self).config,
            is_fresh(*final(self), old(self).config),
    {
        self.state = GameState::Playing;
        self.score = 0;
        self.flyer_y = 0;
        self.flyer_velocity = 0;
        self.gates = Vec::new();
        self.score_timer = Timer::new(self.config.score_interval_ms);
        self.spawn_timer = Timer::new(self.config.min_spawn_interval_ms);
        self.prev_flap = false;
        self.prev_restart = false;
    }

    /// Advances the spawn timer; on a firing, appends one newly drawn gate
    /// pair at the spawn line and rescales the timer's target for the
    /// current score. Returns whether a pair was spawned.
    pub fn spawn_pipe(&mut self, dt_ms: u64) -> (spawned: bool)
        requires
            old(self).wf(),
            old(self).state is Playing,
            dt_ms <= MAX_TICK_MS,
        ensures
            final(self).wf(),
            spawned == fires(
                old(self).spawn_timer.elapsed_ms as int,
                dt_ms as int,
                old(self).spawn_timer.target_ms as int,
            ),
            final(self).spawn_timer.elapsed_ms as int == acc_after(
                old(self).spawn_timer.elapsed_ms as int,
                dt_ms as int,
                old(self).spawn_timer.target_ms as int,
            ),
            final(self).spawn_timer.target_ms as int == if spawned {
                spawn_interval_spec(
                    old(self).score as int,
                    old(self).config.min_spawn_interval_ms as int,
                    old(self).config.max_spawn_interval_ms as int,
                )
            } else {
                old(self).spawn_timer.target_ms as int
            },
            spawned ==> exists|fy: int, gap: int|
                draws_ok(old(self).config, fy, gap) && final(self).gates@ == old(self).gates@
                    + spawned_pair(old(self).config, fy, gap),
            !spawned ==> final(self).gates@ == old(self).gates@,
            *final(self) == (Session {
                gates: final(self).gates,
                spawn_timer: final(self).spawn_timer,
                ..*old(self)
            }),
    {
        let fired = self.spawn_timer.tick(dt_ms);
        if fired {
            let interval = spawn_interval_ms(self.score, &self.config);
            self.spawn_timer.set_duration(interval);
            let fy = draw_floor_y(&self.config);
            let gap = draw_gap();
            let sx: i64 = self.config.field_width / 2 + SPAWN_MARGIN;
            self.gates.push(Gate { x: sx, y: fy, ceiling: false });
            self.gates.push(Gate { x: sx, y: fy + gap, ceiling: true });
            proof {
                assert(self.gates@ =~= old(self).gates@ + spawned_pair(
                    old(self).config,
                    fy as int,
                    gap as int,
                ));
                assert(draws_ok(old(self).config, fy as int, gap as int)
                    && self.gates@ == old(self).gates@ + spawned_pair(
                    old(self).config,
                    fy as int,
                    gap as int,
                ));
            }
            true
        } else {
            false
        }
    }

    /// Advances every gate leftward by the distance covered at the
    /// configured gate speed over `dt_ms`, and retires those past the
    /// retire line beyond the left field edge.
    pub fn move_pipes(&mut self, dt_ms: u64)
        requires
            old(self).wf(),
            old(self).state is Playing,
            dt_ms <= MAX_TICK_MS,
        ensures
            final(self).wf(),
            final(self).gates@ == advance_retire(
                old(self).gates@,
                dx_of(old(self).config, dt_ms as int),
                old(self).config.retire_x(),
            ),
            *final(self) == (Session { gates: final(self).gates, ..*old(self) }),
    {
        proof {
            lemma_product_in_range(
                self.config.gate_speed as int,
                dt_ms as int,
                CONFIG_LIMIT as int,
                MAX_TICK_MS as int,
            );
            lemma_div_is_ordered(
                0,
                self.config.gate_speed as int * dt_ms as int,
                1000,
            );
            lemma_div_is_ordered(
                self.config.gate_speed as int * dt_ms as int,
                CONFIG_LIMIT as int * MAX_TICK_MS as int,
                1000,
            );
        }
        let dx: i64 = self.config.gate_speed * (dt_ms as i64) / 1000;
        let retire: i64 = -(self.config.field_width / 2) - RETIRE_MARGIN;
        let mut out: Vec<Gate> = Vec::new();
        let mut i: usize = 0;
        while i < self.gates.len()
            invariant
                *self == *old(self),
                self.wf(),
                i <= self.gates.len(),
                0 <= dx <= 60_000_000_000i64,
                dx as int == dx_of(self.config, dt_ms as int),
                retire as int == self.config.retire_x(),
                out@ == advance_retire(
                    self.gates@.take(i as int),
                    dx_of(self.config, dt_ms as int),
                    self.config.retire_x(),
                ),
                forall|j: int| 0 <= j < out@.len() ==> gate_in_range(self.config, #[trigger] out@[j]),
            decreases self.gates.len() - i,
        {
            let g = self.gates[i];
            proof {
                assert(gate_in_range(self.config, self.gates@[i as int]));
                assert(self.gates@.take(i as int + 1).drop_last() =~= self.gates@.take(i as int));
            }
            let nx: i64 = g.x - dx;
            if nx >= retire {
                out.push(Gate { x: nx, y: g.y, ceiling: g.ceiling });
            }
            i = i + 1;
        }
        proof {
            assert(self.gates@.take(self.gates@.len() as int) =~= self.gates@);
        }
        self.gates = out;
    }

    /// Checks the flyer's box against every gate's box; on any strict
    /// overlap the state machine moves to loss. All gates are examined —
    /// detection does not stop early. Returns whether an overlap was found.
    pub fn check_collisions(&mut self) -> (hit: bool)
        requires
            old(self).wf(),
            old(self).state is Playing,
        ensures
            final(self).wf(),
            hit == any_gate_hit(*old(self)),
            final(self).state == (if hit {
                GameState::Loss
            } else {
                GameState::Playing
            }),
            *final(self) == (Session { state: final(self).state, ..*old(self) }),
    {
        let fb = flyer_box(self.flyer_y);
        let mut hit = false;
        let mut i: usize = 0;
        while i < self.gates.len()
            invariant
                *self == *old(self),
                self.wf(),
                i <= self.gates.len(),
                fb.min_x == -crate::config::FLYER_HALF_WIDTH,
                fb.max_x == crate::config::FLYER_HALF_WIDTH,
                fb.min_y == self.flyer_y - FLYER_HALF_HEIGHT,
                fb.max_y == self.flyer_y + FLYER_HALF_HEIGHT,
                hit == exists|j: int|
                    0 <= j < i && gate_hits_flyer(#[trigger] self.gates@[j], self.flyer_y as int),
            decreases self.gates.len() - i,
        {
            proof {
                assert(gate_in_range(self.config, self.gates@[i as int]));
            }
            let gb = gate_box(&self.gates[i]);
            let overlap_here = aabb_overlap(&fb, &gb);
            proof {
                lemma_gate_hit_is_box_overlap(
                    self.gates@[i as int],
                    self.flyer_y as int,
                    fb,
                    gb,
                );
            }
            if overlap_here {
                hit = true;
            }
            i = i + 1;
        }
        if hit {
            self.state = GameState::Loss;
        }
        hit
    }

    /// One simulation tick: advances the session by `dt_ms` under the
    /// current input state. While playing, subsystems run in the fixed
    /// order score clock, flap edge, gravity, position, spawner, gate
    /// advance and retire, collision check; any overlap ends the tick in
    /// loss. While lost, only a rising restart edge acts, resetting the
    /// session to a fresh start. Both inputs are edge-triggered against
    /// the previous tick's state.
    pub fn tick(&mut self, dt_ms: u64, flap_down: bool, restart_down: bool) -> (ev: TickEvents)
        requires
            old(self).wf(),
            1 <= dt_ms <= MAX_TICK_MS,
        ensures
            final(self).wf(),
            final(self).config == old(self).config,
            old(self).state is Playing ==> playing_tick_ok(
                *old(self),
                *final(self),
                dt_ms as int,
                flap_down,
                restart_down,
            ),
            old(self).state is Loss ==> loss_tick_ok(
                *old(self),
                *final(self),
                flap_down,
                restart_down,
            ),
            ev.score_changed == (final(self).score != old(self).score),
            ev.spawned == (old(self).state is Playing && spawn_fired(*old(self), dt_ms as int)),
            ev.just_lost == (old(self).state is Playing && final(self).state is Loss),
            ev.restarted == (old(self).state is Loss && restart_edge(*old(self), restart_down)),
    {
        let score_before = self.score;
        let playing = match self.state {
            GameState::Playing => true,
            GameState::Loss => false,
        };
        if playing {
            let _fired_score = self.score_tick(dt_ms);
            if flap_down && !self.prev_flap {
                self.flap();
            }
            self.apply_gravity(dt_ms);
            self.apply_velocity(dt_ms);
            let spawned = self.spawn_pipe(dt_ms);
            let ghost mid = *self;
            self.move_pipes(dt_ms);
            let hit = self.check_collisions();
            self.prev_flap = flap_down;
            self.prev_restart = restart_down;
            proof {
                if spawned {
                    let (fy, gap) = choose|fy: int, gap: int|
                        draws_ok(old(self).config, fy, gap) && mid.gates@ == old(self).gates@
                            + spawned_pair(old(self).config, fy, gap);
                    assert(draws_ok(old(self).config, fy, gap) && self.gates@ == advance_retire(
                        old(self).gates@ + spawned_pair(old(self).config, fy, gap),
                        dx_of(old(self).config, dt_ms as int),
                        old(self).config.retire_x(),
                    ));
                }
            }
            TickEvents {
                score_changed: self.score != score_before,
                spawned,
                just_lost: hit,
                restarted: false,
            }
        } else {
            let edge = restart_down && !self.prev_restart;
            if edge {
                self.restart();
            }
            self.prev_flap = flap_down;
            self.prev_restart = restart_down;
            TickEvents {
                score_changed: self.score != score_before,
                spawned: false,
                just_lost: false,
                restarted: edge,
            }
        }
    }

    /// The current score.
    pub fn score(&self) -> (r: u32)
        ensures
            r == self.score,
    {
        self.score
    }

    /// The current game state.
    pub fn state(&self) -> (r: GameState)
        ensures
            r == self.state,
    {
        self.state
    }

    /// Whether the loss announcement should be shown: exactly while the
    /// state machine sits in loss.
    pub fn loss_banner(&self) -> (r: bool)
        ensures
            r == (self.state is Loss),
    {
        match self.state {
            GameState::Loss => true,
            GameState::Playing => false,
        }
    }

    /// The drawing list for this frame: first the flyer with its fixed
    /// half-extent, then every gate in spawn order with the fixed gate
    /// half-extent.
    pub fn renderables(&self) -> (r: Vec<Renderable>)
        requires
            self.wf(),
        ensures
            r@.len() == 1 + self.gates@.len(),
            r@[0].kind is Flyer,
            r@[0].x == 0,
            r@[0].y == self.flyer_y,
            r@[0].half_width == crate::config::FLYER_HALF_WIDTH,
            r@[0].half_height == FLYER_HALF_HEIGHT,
            forall|i: int|
                0 <= i < self.gates@.len() ==> {
                    let row = #[trigger] r@[i + 1];
                    &&& row.kind is Gate
                    &&& row.x == self.gates@[i].x
                    &&& row.y == self.gates@[i].y
                    &&& row.half_width == crate::config::GATE_HALF_WIDTH
                    &&& row.half_height == crate::config::GATE_HALF_HEIGHT
                },
    {
        let mut r: Vec<Renderable> = Vec::new();
        r.push(
            Renderable {
                kind: EntityKind::Flyer,
                x: 0,
                y: self.flyer_y,
                half_width: crate::config::FLYER_HALF_WIDTH,
                half_height: FLYER_HALF_HEIGHT,
            },
        );
        let mut i: usize = 0;
        while i < self.gates.len()
            invariant
                i <= self.gates.len(),
                r@.len() == 1 + i,
                r@[0].kind is Flyer,
                r@[0].x == 0,
                r@[0].y == self.flyer_y,
                r@[0].half_width == crate::config::FLYER_HALF_WIDTH,
                r@[0].half_height == FLYER_HALF_HEIGHT,
                forall|j: int|
                    0 <= j < i ==> {
                        let row = #[trigger] r@[j + 1];
                        &&& row.kind is Gate
                        &&& row.x == self.gates@[j].x
                        &&& row.y == self.gates@[j].y
                        &&& row.half_width == crate::config::GATE_HALF_WIDTH
                        &&& row.half_height == crate::config::GATE_HALF_HEIGHT
                    },
            decreases self.gates.len() - i,
        {
            let g = self.gates[i];
            r.push(
                Renderable {
                    kind: EntityKind::Gate,
                    x: g.x,
                    y: g.y,
                    half_width: crate::config::GATE_HALF_WIDTH,
                    half_height: crate::config::GATE_HALF_HEIGHT,
                },
            );
            i = i + 1;
        }
        r
    }

    /// The collision boxes the detector uses this frame, for diagnostic
    /// overlays: first the flyer's box, then one box per gate, in spawn
    /// order.
    pub fn collision_boxes(&self) -> (r: Vec<Aabb>)
        requires
            self.wf(),
        ensures
            r@.len() == 1 + self.gates@.len(),
            r@[0].min_x == -crate::config::FLYER_HALF_WIDTH,
            r@[0].max_x == crate::config::FLYER_HALF_WIDTH,
            r@[0].min_y == self.flyer_y - FLYER_HALF_HEIGHT,
            r@[0].max_y == self.flyer_y + FLYER_HALF_HEIGHT,
            forall|i: int|
                0 <= i < self.gates@.len() ==> {
                    let b = #[trigger] r@[i + 1];
                    &&& b.min_x == self.gates@[i].x - crate::config::GATE_HALF_WIDTH
                    &&& b.max_x == self.gates@[i].x + crate::config::GATE_HALF_WIDTH
                    &&& b.min_y == self.gates@[i].y - crate::config::GATE_HALF_HEIGHT
                    &&& b.max_y == self.gates@[i].y + crate::config::GATE_HALF_HEIGHT
                },
    {
        let mut r: Vec<Aabb> = Vec::new();
        r.push(flyer_box(self.flyer_y));
        let mut i: usize = 0;
        while i < self.gates.len()
            invariant
                self.wf(),
                i <= self.gates.len(),
                r@.len() == 1 + i,
                r@[0].min_x == -crate::config::FLYER_HALF_WIDTH,
                r@[0].max_x == crate::config::FLYER_HALF_WIDTH,
                r@[0].min_y == self.flyer_y - FLYER_HALF_HEIGHT,
                r@[0].max_y == self.flyer_y + FLYER_HALF_HEIGHT,
                forall|j: int|
                    0 <= j < i ==> {
                        let b = #[trigger] r@[j + 1];
                        &&& b.min_x == self.gates@[j].x - crate::config::GATE_HALF_WIDTH
                        &&& b.max_x == self.gates@[j].x + crate::config::GATE_HALF_WIDTH
                        &&& b.min_y == self.gates@[j].y - crate::config::GATE_HALF_HEIGHT
                        &&& b.max_y == self.gates@[j].y + crate::config::GATE_HALF_HEIGHT
                    },
            decreases self.gates.len() - i,
        {
            proof {
                assert(gate_in_range(self.config, self.gates@[i as int]));
            }
            let b = gate_box(&self.gates[i]);
            r.push(b);
            i = i + 1;
        }
        r
    }
}

} // verus!
