//! The two per-tick passes over the particle collection: kinematics
//! (advance every particle by the tick's wall-clock delta) and culling
//! (drop every particle that has left the visible area).

use vstd::prelude::*;

use crate::particle::{advanced_particle, advanced_y, Particle, DELTA_MAX_MS};

verus! {

/// A particle is still on screen while its vertical position has not
/// passed the last visible row; the row itself is retained.
pub open spec fn on_screen(p: Particle, height: u16) -> bool {
    p.y_micro <= height * 1_000_000
}

/// [`on_screen`] at a fixed height, as a predicate on particles.
pub open spec fn on_screen_pred(height: u16) -> spec_fn(Particle) -> bool {
    |p: Particle| on_screen(p, height)
}

/// Advances every particle in place by `delta_ms` milliseconds. No
/// particle is added or removed, and each one moves by exactly its
/// velocity times the elapsed time.
pub fn update_positions(particles: &mut Vec<Particle>, delta_ms: u64)
    requires
        delta_ms <= DELTA_MAX_MS,
        forall|i: int| 0 <= i < old(particles)@.len() ==> (#[trigger] old(particles)@[i]).wf(),
    ensures
        final(particles)@.len() == old(particles)@.len(),
        forall|i: int|
            0 <= i < final(particles)@.len() ==> final(particles)@[i] == advanced_particle(
                #[trigger] old(particles)@[i],
                delta_ms,
            ),
{
    let n: usize = particles.len();
    let mut i: usize = 0;
    while i < n
        invariant
            0 <= i <= n,
            n == particles@.len() == old(particles)@.len(),
            delta_ms <= DELTA_MAX_MS,
            forall|k: int| 0 <= k < n ==> (#[trigger] old(particles)@[k]).wf(),
            forall|k: int|
                0 <= k < i ==> particles@[k] == advanced_particle(
                    #[trigger] old(particles)@[k],
                    delta_ms,
                ),
            forall|k: int| i <= k < n ==> particles@[k] == #[trigger] old(particles)@[k],
        decreases n - i,
    {
        let p = particles[i];
        proof {
            assert(p == old(particles)@[i as int]);
        }
        let q = crate::particle::advance(&p, delta_ms);
        particles.set(i, q);
        i = i + 1;
    }
}

/// Removes every particle that has left the visible area, keeping the
/// survivors in order. A particle exactly on the last visible row stays.
pub fn remove_off_screen(particles: &mut Vec<Particle>, height: u16)
    ensures
        final(particles)@ == old(particles)@.filter(on_screen_pred(height)),
        forall|i: int|
            0 <= i < final(particles)@.len() ==> old(particles)@.contains(
                #[trigger] final(particles)@[i],
            ),
{
    let n: usize = particles.len();
    let mut kept: Vec<Particle> = Vec::new();
    let mut i: usize = 0;
    proof {
        assert(old(particles)@.subrange(0, 0) =~= Seq::<Particle>::empty());
        reveal(Seq::filter);
    }
    while i < n
        invariant
            0 <= i <= n,
            n == particles@.len(),
            particles@ == old(particles)@,
            kept@ == old(particles)@.subrange(0, i as int).filter(on_screen_pred(height)),
            forall|k: int| 0 <= k < kept@.len() ==> old(particles)@.contains(#[trigger] kept@[k]),
        decreases n - i,
    {
        let p = particles[i];
        let ghost prefix = old(particles)@.subrange(0, i as int);
        let ghost prefix1 = old(particles)@.subrange(0, i + 1);
        proof {
            assert(prefix1.drop_last() =~= prefix);
            assert(prefix1.last() == old(particles)@[i as int]);
            reveal(Seq::filter);
        }
        if p.y_micro <= (height as i64) * 1_000_000 {
            kept.push(p);
        }
        i = i + 1;
    }
    proof {
        assert(old(particles)@.subrange(0, n as int) =~= old(particles)@);
    }
    *particles = kept;
}

/// The culling boundary: a particle exactly on the last visible row
/// survives one cull pass; one tick of positive fall speed and positive
/// duration later, the next pass removes it.
pub proof fn lemma_cull_boundary(p: Particle, height: u16, delta_ms: u64)
    requires
        p.wf(),
        1 <= delta_ms <= DELTA_MAX_MS,
        p.y_micro == height * 1_000_000,
        p.vy_milli >= 1,
    ensures
        on_screen(p, height),
        !on_screen(advanced_particle(p, delta_ms), height),
{
    crate::particle::lemma_displacement_bound(p.vy_milli, delta_ms);
    assert(p.vy_milli * delta_ms >= 1) by (nonlinear_arith)
        requires
            p.vy_milli >= 1,
            delta_ms >= 1,
    ;
    assert(advanced_y(p, delta_ms) >= p.y_micro + 1);
}

} // verus!
