//! The renderer's draw computation.
//!
//! One frame is a batch of draw commands: for every particle whose cell
//! — the floor of its position — lies within the visible grid, one
//! command placing its glyph at that cell. Off-range particles are
//! silently skipped. The terminal itself (clear, cursor moves, flush)
//! is outside the library; a caller performs the batch as one atomic
//! update.

use vstd::prelude::*;

use crate::particle::{Particle, POS_MAX_MICRO};

verus! {

/// One draw command: put `glyph` at column `col` of row `row`.
#[derive(Clone, Copy, Debug, PartialEq, Eq, Structural)]
pub struct DrawOp {
    pub col: u16,
    pub row: u16,
    pub glyph: char,
}

/// The column of the cell a particle occupies: the floor of its
/// horizontal position.
pub open spec fn cell_col(p: Particle) -> int {
    p.x_micro as int / 1_000_000
}

/// The row of the cell a particle occupies: the floor of its vertical
/// position.
pub open spec fn cell_row(p: Particle) -> int {
    p.y_micro as int / 1_000_000
}

/// Whether the particle's cell lies within the visible grid.
pub open spec fn in_grid(p: Particle, width: u16, height: u16) -> bool {
    &&& 0 <= cell_col(p) < width
    &&& 0 <= cell_row(p) < height
}

/// The draw command for one visible particle.
pub open spec fn draw_op_of(p: Particle) -> DrawOp {
    DrawOp { col: cell_col(p) as u16, row: cell_row(p) as u16, glyph: p.glyph }
}

/// The draw commands of a frame: one per particle whose cell is within
/// the grid, in collection order.
pub open spec fn frame_ops(ps: Seq<Particle>, width: u16, height: u16) -> Seq<DrawOp>
    decreases ps.len(),
{
    if ps.len() == 0 {
        Seq::empty()
    } else {
        let rest = frame_ops(ps.drop_last(), width, height);
        if in_grid(ps.last(), width, height) {
            rest.push(draw_op_of(ps.last()))
        } else {
            rest
        }
    }
}

/// Floor division of a micro-cell coordinate by the fixed-point scale.
fn floor_micro(a: i64) -> (r: i64)
    requires
        -POS_MAX_MICRO <= a <= POS_MAX_MICRO,
    ensures
        r == a as int / 1_000_000,
{
    if a >= 0 {
        ((a as u64) / 1_000_000) as i64
    } else {
        let up: u64 = ((-a) as u64 + 999_999) / 1_000_000;
        proof {
            vstd::arithmetic::div_mod::lemma_fundamental_div_mod(a as int, 1_000_000);
            vstd::arithmetic::div_mod::lemma_fundamental_div_mod((-a) as int + 999_999, 1_000_000);
        }
        -(up as i64)
    }
}

/// Computes the draw commands of one frame from the surviving
/// particles: each particle whose cell lies within the `width` by
/// `height` grid yields one command at the floor of its position;
/// the rest are skipped.
pub fn render_frame(particles: &Vec<Particle>, width: u16, height: u16) -> (ops: Vec<DrawOp>)
    requires
        forall|i: int| 0 <= i < particles@.len() ==> (#[trigger] particles@[i]).wf(),
    ensures
        ops@ == frame_ops(particles@, width, height),
{
    let n: usize = particles.len();
    let mut ops: Vec<DrawOp> = Vec::new();
    let mut i: usize = 0;
    proof {
        assert(particles@.subrange(0, 0) =~= Seq::<Particle>::empty());
    }
    while i < n
        invariant
            0 <= i <= n,
            n == particles@.len(),
            forall|k: int| 0 <= k < n ==> (#[trigger] particles@[k]).wf(),
            ops@ == frame_ops(particles@.subrange(0, i as int), width, height),
        decreases n - i,
    {
        let p = particles[i];
        proof {
            assert(p == particles@[i as int]);
            assert(particles@.subrange(0, i + 1).drop_last() =~= particles@.subrange(0, i as int));
            assert(particles@.subrange(0, i + 1).last() == particles@[i as int]);
        }
        let col = floor_micro(p.x_micro);
        let row = floor_micro(p.y_micro);
        if 0 <= col && col < width as i64 && 0 <= row && row < height as i64 {
            ops.push(DrawOp { col: col as u16, row: row as u16, glyph: p.glyph });
        }
        i = i + 1;
    }
    proof {
        assert(particles@.subrange(0, n as int) =~= particles@);
    }
    ops
}

} // verus!
