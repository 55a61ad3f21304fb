//! The spawner: decides once per tick whether and how many new
//! particles appear, and where.
//!
//! Spawning is held back by simulated elapsed time: a tick closer to
//! the last spawn evaluation than the spawn interval leaves the
//! collection untouched. Once the interval has passed, the configured
//! model decides the new particles, and the spawn timestamp advances
//! whether or not it chose to spawn any.

use vstd::prelude::*;

use crate::config::{Config, SpawnModel};
use crate::particle::Particle;
use crate::rng::RandomSource;

verus! {

/// When the spawner last evaluated its model, in simulated
/// milliseconds. Mutated only by the spawner, monotonically
/// non-decreasing.
#[derive(Clone, Copy, Debug, PartialEq, Eq, Structural)]
pub struct SpawnTimer {
    pub last_spawn_elapsed_ms: u64,
}

/// What every newly spawned particle looks like: at the top row, within
/// half a cell of the screen's columns, falling straight down at the
/// configured speed, drawn with the configured glyph.
pub open spec fn is_fresh_spawn(p: Particle, c: Config) -> bool {
    &&& p.y_micro == 0
    &&& p.vx_milli == 0
    &&& p.vy_milli == c.fall_speed_milli as int
    &&& p.glyph == c.glyph
    &&& -500_000 <= p.x_micro < c.width as int * 1_000_000
    &&& p.wf()
}

/// The column a spawned particle belongs to: the column whose center
/// lies within half a cell of the particle. A particle at
/// `c * 1_000_000 + off` with `-500_000 <= off < 500_000` maps to `c`.
pub open spec fn spawn_column_of(p: Particle) -> int {
    (p.x_micro + 500_000) / 1_000_000
}

/// Where one ungated spawner invocation placed its new particles. The
/// two uniform-column models draw positions in `[0, width)` cells, so
/// nothing lands left of column zero. The per-column model visits the
/// columns in order: each new particle lies within half a cell of its
/// own column, and the columns are strictly increasing — at most one
/// particle per column, all of them on screen.
pub open spec fn spawn_placement_ok(c: Config, news: Seq<Particle>) -> bool {
    match c.model {
        SpawnModel::BernoulliCluster { chance_milli, cluster_size } => forall|i: int|
            0 <= i < news.len() ==> (#[trigger] news[i]).x_micro >= 0,
        SpawnModel::GaussianCount { mean_milli, std_milli } => forall|i: int|
            0 <= i < news.len() ==> (#[trigger] news[i]).x_micro >= 0,
        SpawnModel::PerColumn { chance_milli } => {
            &&& forall|i: int|
                0 <= i < news.len() ==> 0 <= #[trigger] spawn_column_of(news[i]) < c.width
            &&& forall|i: int, j: int|
                0 <= i < j < news.len() ==> spawn_column_of(news[i]) < spawn_column_of(news[j])
        },
    }
}

/// Rounding of a milli-count to the nearest integer, halves away from
/// zero.
pub open spec fn round_milli(v: int) -> int {
    if v >= 0 {
        (v + 500) / 1000
    } else {
        -((-v + 500) / 1000)
    }
}

/// The Gaussian model's particle count for one drawn sample: the sample
/// rounded to the nearest count, but at least one, and capped at the
/// 31-bit range the count is held in.
pub open spec fn spec_gaussian_count(sample_milli: int) -> int {
    let r = round_milli(sample_milli);
    if r < 1 {
        1
    } else if r > 0x7fff_ffff {
        0x7fff_ffff
    } else {
        r
    }
}

/// How many particles one ungated spawner invocation may add: an exact
/// count for the Gaussian model, whose sample is given; bounds for the
/// two models that draw their own randomness.
pub open spec fn spawn_count_ok(c: Config, count: int, gauss_sample_milli: i64) -> bool {
    match c.model {
        SpawnModel::BernoulliCluster { chance_milli, cluster_size } => {
            &&& count == 0 || 1 <= count <= cluster_size
            &&& chance_milli == 0 ==> count == 0
            &&& chance_milli >= 1000 ==> count >= 1
        },
        SpawnModel::GaussianCount { mean_milli, std_milli } => count == spec_gaussian_count(
            gauss_sample_milli as int,
        ),
        SpawnModel::PerColumn { chance_milli } => {
            &&& 0 <= count <= c.width
            &&& chance_milli == 0 ==> count == 0
            &&& chance_milli >= 1000 ==> count == c.width
        },
    }
}

/// The Gaussian model's count for one sample, as executable arithmetic.
pub fn gaussian_count(sample_milli: i64) -> (c: u32)
    ensures
        c == spec_gaussian_count(sample_milli as int),
{
    if sample_milli < 500 {
        1
    } else {
        let r: u64 = (sample_milli as u64 + 500) / 1000;
        if r > 0x7fff_ffff {
            0x7fff_ffff
        } else {
            r as u32
        }
    }
}

/// One particle at a uniform random column of the top row, never left
/// of column zero.
fn spawn_uniform_column(rng: &mut RandomSource, config: &Config) -> (p: Particle)
    requires
        config.wf(),
    ensures
        is_fresh_spawn(p, *config),
        p.x_micro >= 0,
{
    let x = rng.sample_below(config.width as u64 * 1_000_000);
    Particle::new(x as i64, config.fall_speed_milli as i64, config.glyph)
}

/// One particle at column `col` of the top row, offset by a uniform
/// amount within half a cell either way.
fn spawn_at_column(rng: &mut RandomSource, config: &Config, col: u16) -> (p: Particle)
    requires
        config.wf(),
        col < config.width,
    ensures
        is_fresh_spawn(p, *config),
        spawn_column_of(p) == col,
{
    let off: i64 = (rng.sample_below(1_000_000) as i64) - 500_000;
    Particle::new((col as i64) * 1_000_000 + off, config.fall_speed_milli as i64, config.glyph)
}

/// One spawner invocation at simulated elapsed time `elapsed_ms`.
///
/// Within the spawn interval of the last evaluation it is a no-op
/// (the particle count is unchanged). Otherwise the chosen model
/// appends its new particles — every one a fresh spawn at the top row,
/// placed as [`spawn_placement_ok`] states per model — and the timer
/// advances to `elapsed_ms`, never backwards. For the Gaussian model
/// the caller passes the drawn sample in milli-counts; the other
/// models ignore it and draw from `rng`.
pub fn spawn_snowballs(
    particles: &mut Vec<Particle>,
    timer: &mut SpawnTimer,
    rng: &mut RandomSource,
    config: &Config,
    elapsed_ms: u64,
    gauss_sample_milli: i64,
)
    requires
        config.wf(),
        old(timer).last_spawn_elapsed_ms <= elapsed_ms,
    ensures
        elapsed_ms - old(timer).last_spawn_elapsed_ms < config.spawn_interval_ms ==> {
            &&& final(particles)@ == old(particles)@
            &&& *final(timer) == *old(timer)
        },
        elapsed_ms - old(timer).last_spawn_elapsed_ms >= config.spawn_interval_ms ==> {
            &&& final(timer).last_spawn_elapsed_ms == elapsed_ms
            &&& spawn_count_ok(
                *config,
                final(particles)@.len() - old(particles)@.len(),
                gauss_sample_milli,
            )
        },
        final(particles)@.len() >= old(particles)@.len(),
        final(particles)@.subrange(0, old(particles)@.len() as int) == old(particles)@,
        forall|i: int|
            old(particles)@.len() <= i < final(particles)@.len() ==> is_fresh_spawn(
                #[trigger] final(particles)@[i],
                *config,
            ),
        spawn_placement_ok(
            *config,
            final(particles)@.subrange(
                old(particles)@.len() as int,
                final(particles)@.len() as int,
            ),
        ),
        final(timer).last_spawn_elapsed_ms >= old(timer).last_spawn_elapsed_ms,
{
    let ghost n0 = particles@.len() as int;
    if elapsed_ms - timer.last_spawn_elapsed_ms < config.spawn_interval_ms {
        proof {
            assert(particles@.subrange(0, n0) =~= particles@);
        }
        return ;
    }
    match config.model {
        SpawnModel::BernoulliCluster { chance_milli, cluster_size } => {
            let u = rng.sample_below(1000);
            if u < chance_milli as u64 {
                let k: u64 = rng.sample_below(cluster_size as u64) + 1;
                let mut t: u64 = 0;
                while t < k
                    invariant
                        t <= k,
                        1 <= k <= cluster_size,
                        config.wf(),
                        particles@.len() == n0 + t,
                        particles@.subrange(0, n0) == old(particles)@,
                        n0 == old(particles)@.len(),
                        forall|i: int|
                            n0 <= i < particles@.len() ==> is_fresh_spawn(
                                #[trigger] particles@[i],
                                *config,
                            ),
                        forall|i: int|
                            n0 <= i < particles@.len() ==> (#[trigger] particles@[i]).x_micro >= 0,
                    decreases k - t,
                {
                    let p = spawn_uniform_column(rng, config);
                    let ghost before = particles@;
                    particles.push(p);
                    proof {
                        assert(particles@.subrange(0, n0) =~= before.subrange(0, n0));
                    }
                    t = t + 1;
                }
            } else {
                proof {
                    assert(particles@.subrange(0, n0) =~= particles@);
                }
            }
        },
        SpawnModel::GaussianCount { mean_milli: _, std_milli: _ } => {
            let count: u32 = gaussian_count(gauss_sample_milli);
            let mut t: u32 = 0;
            while t < count
                invariant
                    t <= count,
                    config.wf(),
                    particles@.len() == n0 + t,
                    particles@.subrange(0, n0) == old(particles)@,
                    n0 == old(particles)@.len(),
                    forall|i: int|
                        n0 <= i < particles@.len() ==> is_fresh_spawn(
                            #[trigger] particles@[i],
                            *config,
                        ),
                    forall|i: int|
                        n0 <= i < particles@.len() ==> (#[trigger] particles@[i]).x_micro >= 0,
                decreases count - t,
            {
                let p = spawn_uniform_column(rng, config);
                let ghost before = particles@;
                particles.push(p);
                proof {
                    assert(particles@.subrange(0, n0) =~= before.subrange(0, n0));
                }
                t = t + 1;
            }
        },
        SpawnModel::PerColumn { chance_milli } => {
            let mut col: u16 = 0;
            let width = config.width;
            while col < width
                invariant
                    col <= width,
                    width == config.width,
                    config.wf(),
                    n0 <= particles@.len() <= n0 + col,
                    chance_milli == 0 ==> particles@.len() == n0,
                    chance_milli >= 1000 ==> particles@.len() == n0 + col,
                    particles@.subrange(0, n0) == old(particles)@,
                    n0 == old(particles)@.len(),
                    forall|i: int|
                        n0 <= i < particles@.len() ==> is_fresh_spawn(
                            #[trigger] particles@[i],
                            *config,
                        ),
                    forall|i: int|
                        n0 <= i < particles@.len() ==> 0 <= #[trigger] spawn_column_of(
                            particles@[i],
                        ) < col,
                    forall|i: int, j: int|
                        n0 <= i < j < particles@.len() ==> spawn_column_of(particles@[i])
                            < spawn_column_of(particles@[j]),
                decreases width - col,
            {
                let u = rng.sample_below(1000);
                if u < chance_milli as u64 {
                    let p = spawn_at_column(rng, config, col);
                    let ghost before = particles@;
                    particles.push(p);
                    proof {
                        assert(particles@.subrange(0, n0) =~= before.subrange(0, n0));
                    }
                }
                col = col + 1;
            }
        },
    }
    timer.last_spawn_elapsed_ms = elapsed_ms;
}

} // verus!
