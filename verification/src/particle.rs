//! The falling particle and its kinematics.
//!
//! Positions and velocities are fixed-point integers: a coordinate is
//! counted in millionths of a terminal cell ("micro-cells"), a velocity
//! in thousandths of a cell per second ("milli-cells per second").
//! One tick therefore advances a coordinate by exactly
//! `velocity * delta_ms` micro-cells — no per-tick rounding — so
//! splitting a wall-clock delta across ticks moves a particle exactly
//! as far as one tick of the whole delta, and per-second displacement
//! does not depend on the tick rate.

use vstd::prelude::*;

verus! {

/// Largest velocity the model admits, in milli-cells per second
/// (one thousand cells per second).
pub const VEL_MAX_MILLI: i64 = 1_000_000;

/// Largest coordinate magnitude the model admits, in micro-cells
/// (one hundred million cells).
pub const POS_MAX_MICRO: i64 = 100_000_000_000_000;

/// Largest wall-clock delta of one tick, in milliseconds (one day).
pub const DELTA_MAX_MS: u64 = 86_400_000;

/// One falling glyph: position, velocity and the character drawn for it.
#[derive(Clone, Copy, Debug, PartialEq, Eq, Structural)]
pub struct Particle {
    /// Horizontal position in micro-columns.
    pub x_micro: i64,
    /// Vertical position in micro-rows; row zero is the top of the screen.
    pub y_micro: i64,
    /// Horizontal velocity in milli-columns per second.
    pub vx_milli: i64,
    /// Vertical velocity in milli-rows per second; positive falls down.
    pub vy_milli: i64,
    /// The character drawn for this particle.
    pub glyph: char,
}

impl Particle {
    /// The coordinate and velocity bounds under which one tick of
    /// kinematics stays within 64-bit arithmetic.
    pub open spec fn wf(self) -> bool {
        &&& -POS_MAX_MICRO <= self.x_micro <= POS_MAX_MICRO
        &&& 0 <= self.y_micro <= POS_MAX_MICRO
        &&& 0 <= self.vx_milli <= VEL_MAX_MILLI
        &&& 0 <= self.vy_milli <= VEL_MAX_MILLI
    }

    /// A fresh particle: at position `(x, 0)` on the top row, falling
    /// straight down at `vy_milli`, drawn as `glyph`.
    pub fn new(x_micro: i64, vy_milli: i64, glyph: char) -> (p: Particle)
        ensures
            p == (Particle { x_micro, y_micro: 0, vx_milli: 0, vy_milli, glyph }),
    {
        Particle { x_micro, y_micro: 0, vx_milli: 0, vy_milli, glyph }
    }
}

/// Horizontal position after `delta_ms` milliseconds of free motion:
/// milli-cells per second times milliseconds are micro-cells, exactly.
pub open spec fn advanced_x(p: Particle, delta_ms: u64) -> int {
    p.x_micro + p.vx_milli * delta_ms
}

/// Vertical position after `delta_ms` milliseconds of free motion.
pub open spec fn advanced_y(p: Particle, delta_ms: u64) -> int {
    p.y_micro + p.vy_milli * delta_ms
}

/// The particle one tick later: positions advanced by velocity times
/// elapsed time, velocity and glyph unchanged.
pub open spec fn advanced_particle(p: Particle, delta_ms: u64) -> Particle {
    Particle { x_micro: advanced_x(p, delta_ms) as i64, y_micro: advanced_y(p, delta_ms) as i64, ..p }
}

/// A velocity times a bounded delta stays within the displacement bound.
pub(crate) proof fn lemma_displacement_bound(v: i64, delta_ms: u64)
    requires
        0 <= v <= VEL_MAX_MILLI,
        delta_ms <= DELTA_MAX_MS,
    ensures
        0 <= v * delta_ms <= VEL_MAX_MILLI * DELTA_MAX_MS,
{
    assert(0 <= v * delta_ms <= VEL_MAX_MILLI * DELTA_MAX_MS) by (nonlinear_arith)
        requires
            0 <= v <= VEL_MAX_MILLI,
            0 <= delta_ms <= DELTA_MAX_MS,
    ;
}

/// Advances one particle by `delta_ms` milliseconds.
pub fn advance(p: &Particle, delta_ms: u64) -> (q: Particle)
    requires
        p.wf(),
        delta_ms <= DELTA_MAX_MS,
    ensures
        q == advanced_particle(*p, delta_ms),
        q.y_micro >= p.y_micro,
        p.vx_milli == 0 ==> q.x_micro == p.x_micro,
{
    proof {
        lemma_displacement_bound(p.vx_milli, delta_ms);
        lemma_displacement_bound(p.vy_milli, delta_ms);
    }
    let step_x: u64 = (p.vx_milli as u64) * delta_ms;
    let step_y: u64 = (p.vy_milli as u64) * delta_ms;
    Particle {
        x_micro: p.x_micro + (step_x as i64),
        y_micro: p.y_micro + (step_y as i64),
        vx_milli: p.vx_milli,
        vy_milli: p.vy_milli,
        glyph: p.glyph,
    }
}

/// Falling is monotone: with a non-negative fall speed the vertical
/// position never decreases from one tick to the next, and with zero
/// horizontal velocity the horizontal position never changes.
pub proof fn lemma_fall_monotone(p: Particle, delta_ms: u64)
    requires
        p.wf(),
    ensures
        advanced_y(p, delta_ms) >= p.y_micro,
        p.vx_milli == 0 ==> advanced_x(p, delta_ms) == p.x_micro,
{
    assert(p.vy_milli * delta_ms >= 0) by (nonlinear_arith)
        requires
            p.vy_milli >= 0,
            delta_ms >= 0,
    ;
}

/// Frame-rate independence: splitting a wall-clock delta across two
/// ticks leaves every particle exactly where one tick of the summed
/// delta would — doubling the tick rate at the same wall-clock delta
/// does not change per-second displacement.
pub proof fn lemma_frame_rate_independent(p: Particle, a_ms: u64, b_ms: u64)
    requires
        p.wf(),
        a_ms + b_ms <= DELTA_MAX_MS,
    ensures
        advanced_particle(advanced_particle(p, a_ms), b_ms) == advanced_particle(
            p,
            (a_ms + b_ms) as u64,
        ),
{
    lemma_displacement_bound(p.vx_milli, a_ms);
    lemma_displacement_bound(p.vy_milli, a_ms);
    lemma_displacement_bound(p.vx_milli, b_ms);
    lemma_displacement_bound(p.vy_milli, b_ms);
    lemma_displacement_bound(p.vx_milli, (a_ms + b_ms) as u64);
    lemma_displacement_bound(p.vy_milli, (a_ms + b_ms) as u64);
    assert(p.vx_milli * a_ms + p.vx_milli * b_ms == p.vx_milli * (a_ms + b_ms)) by (nonlinear_arith);
    assert(p.vy_milli * a_ms + p.vy_milli * b_ms == p.vy_milli * (a_ms + b_ms)) by (nonlinear_arith);
}

} // verus!
