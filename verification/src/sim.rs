//! The simulation: the particle collection with its configuration,
//! spawn timer and random source, advanced one tick at a time by an
//! explicit ordered pipeline — spawn, kinematics, cull, render. The
//! ordering is load-bearing and fixed here, not left to a scheduler.

use vstd::prelude::*;

use crate::config::Config;
use crate::motion::{on_screen, on_screen_pred, remove_off_screen, update_positions};
use crate::particle::{advanced_particle, Particle, DELTA_MAX_MS};
use crate::render::{frame_ops, render_frame, DrawOp};
use crate::rng::RandomSource;
use crate::spawn::{is_fresh_spawn, spawn_count_ok, spawn_placement_ok, spawn_snowballs, SpawnTimer};

verus! {

/// [`advanced_particle`] at a fixed delta, as a map over particles.
pub open spec fn advance_fn(delta_ms: u64) -> spec_fn(Particle) -> Particle {
    |p: Particle| advanced_particle(p, delta_ms)
}

/// One tick's effect on a particle collection, after spawning: every
/// particle advances by the tick's delta, then everything below the
/// last visible row is dropped.
pub open spec fn pipeline(ps: Seq<Particle>, c: Config, delta_ms: u64) -> Seq<Particle> {
    ps.map_values(advance_fn(delta_ms)).filter(on_screen_pred(c.height))
}

/// A particle the simulation may hold between ticks: well-formed,
/// falling straight down at the configured speed, within half a cell
/// of the screen's columns, and not below the last visible row.
pub open spec fn particle_ok(p: Particle, c: Config) -> bool {
    &&& p.wf()
    &&& p.vx_milli == 0
    &&& p.vy_milli == c.fall_speed_milli as int
    &&& p.glyph == c.glyph
    &&& -500_000 <= p.x_micro < c.width as int * 1_000_000
    &&& 0 <= p.y_micro <= c.height as int * 1_000_000
}

/// The simulation state owned by the tick loop.
pub struct Simulation {
    /// The run's immutable parameters.
    pub config: Config,
    /// The live particles, in spawn order.
    pub particles: Vec<Particle>,
    /// When the spawner last evaluated its model.
    pub timer: SpawnTimer,
    /// The run's single random source.
    pub rng: RandomSource,
}

impl Simulation {
    /// The invariant the pipeline maintains between ticks.
    pub open spec fn wf(self) -> bool {
        &&& self.config.wf()
        &&& forall|i: int|
            0 <= i < self.particles@.len() ==> particle_ok(
                #[trigger] self.particles@[i],
                self.config,
            )
    }

    /// An empty simulation about to run its first tick.
    pub fn new(config: Config, rng: RandomSource) -> (sim: Simulation)
        requires
            config.wf(),
        ensures
            sim.wf(),
            sim.config == config,
            sim.particles@.len() == 0,
            sim.timer.last_spawn_elapsed_ms == 0,
    {
        Simulation {
            config,
            particles: Vec::new(),
            timer: SpawnTimer { last_spawn_elapsed_ms: 0 },
            rng,
        }
    }

    /// One tick of the simulation at simulated elapsed time
    /// `elapsed_ms`, with `delta_ms` of wall-clock time since the
    /// previous tick: the spawner may append fresh particles (for the
    /// Gaussian model, from the caller's drawn sample), every particle
    /// advances by its velocity times the delta, the ones below the
    /// last visible row are dropped, and the surviving collection is
    /// rendered to one batch of draw commands.
    pub fn step(&mut self, elapsed_ms: u64, delta_ms: u64, gauss_sample_milli: i64) -> (ops: Vec<
        DrawOp,
    >)
        requires
            old(self).wf(),
            old(self).timer.last_spawn_elapsed_ms <= elapsed_ms,
            delta_ms <= DELTA_MAX_MS,
        ensures
            final(self).wf(),
            final(self).config == old(self).config,
            old(self).timer.last_spawn_elapsed_ms <= final(self).timer.last_spawn_elapsed_ms
                <= elapsed_ms,
            elapsed_ms - old(self).timer.last_spawn_elapsed_ms < old(
                self,
            ).config.spawn_interval_ms ==> {
                &&& final(self).timer == old(self).timer
                &&& final(self).particles@ == pipeline(
                    old(self).particles@,
                    old(self).config,
                    delta_ms,
                )
            },
            elapsed_ms - old(self).timer.last_spawn_elapsed_ms >= old(
                self,
            ).config.spawn_interval_ms ==> {
                &&& final(self).timer.last_spawn_elapsed_ms == elapsed_ms
                &&& exists|news: Seq<Particle>|
                    {
                        &&& (forall|i: int|
                            0 <= i < news.len() ==> is_fresh_spawn(
                                #[trigger] news[i],
                                old(self).config,
                            ))
                        &&& spawn_count_ok(old(self).config, news.len() as int, gauss_sample_milli)
                        &&& spawn_placement_ok(old(self).config, news)
                        &&& final(self).particles@ == pipeline(
                            old(self).particles@ + news,
                            old(self).config,
                            delta_ms,
                        )
                    }
            },
            ops@ == frame_ops(
                final(self).particles@,
                old(self).config.width,
                old(self).config.height,
            ),
    {
        let ghost cfg = self.config;
        let ghost before = self.particles@;
        spawn_snowballs(
            &mut self.particles,
            &mut self.timer,
            &mut self.rng,
            &self.config,
            elapsed_ms,
            gauss_sample_milli,
        );
        let ghost spawned = self.particles@;
        let ghost news = spawned.subrange(before.len() as int, spawned.len() as int);
        proof {
            assert(spawned.subrange(0, before.len() as int) == before);
            assert(before + news =~= spawned);
            assert forall|i: int| 0 <= i < spawned.len() implies particle_ok(
                #[trigger] spawned[i],
                cfg,
            ) by {
                if i < before.len() {
                    assert(spawned[i] == before[i]);
                } else {
                    assert(is_fresh_spawn(spawned[i], cfg));
                }
            }
        }
        update_positions(&mut self.particles, delta_ms);
        let ghost moved = self.particles@;
        proof {
            assert(moved =~= spawned.map_values(advance_fn(delta_ms)));
            assert forall|i: int| 0 <= i < moved.len() implies moved_ok(
                #[trigger] moved[i],
                cfg,
            ) by {
                lemma_advance_keeps_ok(spawned[i], cfg, delta_ms);
            }
        }
        remove_off_screen(&mut self.particles, self.config.height);
        proof {
            assert(self.particles@ == pipeline(before + news, cfg, delta_ms));
            assert forall|i: int| 0 <= i < self.particles@.len() implies particle_ok(
                #[trigger] self.particles@[i],
                cfg,
            ) by {
                let p = self.particles@[i];
                assert(moved.contains(p));
                let j = choose|j: int| 0 <= j < moved.len() && moved[j] == p;
                assert(moved_ok(moved[j], cfg));
                moved.lemma_filter_pred(on_screen_pred(cfg.height), i);
                assert(on_screen(p, cfg.height));
            }
        }
        let ops = render_frame(&self.particles, self.config.width, self.config.height);
        ops
    }
}

/// What holds of a particle just after the kinematics pass, before the
/// cull: everything of [`particle_ok`] except that it may lie below the
/// last visible row.
pub open spec fn moved_ok(p: Particle, c: Config) -> bool {
    &&& p.wf()
    &&& p.vx_milli == 0
    &&& p.vy_milli == c.fall_speed_milli as int
    &&& p.glyph == c.glyph
    &&& -500_000 <= p.x_micro < c.width as int * 1_000_000
    &&& on_screen(p, c.height) ==> particle_ok(p, c)
}

/// Advancing a held particle preserves everything but its row bound.
proof fn lemma_advance_keeps_ok(p: Particle, c: Config, delta_ms: u64)
    requires
        particle_ok(p, c),
        delta_ms <= DELTA_MAX_MS,
    ensures
        moved_ok(advanced_particle(p, delta_ms), c),
{
    crate::particle::lemma_displacement_bound(p.vy_milli, delta_ms);
    crate::particle::lemma_displacement_bound(p.vx_milli, delta_ms);
    crate::particle::lemma_fall_monotone(p, delta_ms);
}

} // verus!
