//! The exporter: the pool flattened into the three buffers that a renderer
//! reads. All three go by slot, so that within one frame the same index means
//! the same particle in each of them.

use vstd::prelude::*;
use crate::particle::{GREEN, Particle, Rgba, all_alive};
use crate::scalar::{ONE, lemma_fraction_below_one, lemma_scaled_bounds};
use crate::store::ParticleStore;

verus! {

/// The coordinate of `p` on the given axis: 0 is x, 1 is y, 2 is z.
pub open spec fn coordinate(p: Particle, axis: int) -> i64 {
    if axis == 0 {
        p.x
    } else if axis == 1 {
        p.y
    } else {
        p.z
    }
}

/// The channel of `c` with the given number: 0 is red, 1 is green, 2 is blue,
/// 3 is alpha.
pub open spec fn channel(c: Rgba, number: int) -> u64 {
    if number == 0 {
        c.red
    } else if number == 1 {
        c.green
    } else if number == 2 {
        c.blue
    } else {
        c.alpha
    }
}

/// The position buffer: x, y and z of each particle, slot after slot.
pub open spec fn positions_of(s: Seq<Particle>) -> Seq<i64> {
    Seq::new(3 * s.len(), |k: int| coordinate(s[k / 3], k % 3))
}

/// The size buffer: the shown size of each particle, slot after slot.
pub open spec fn sizes_of(s: Seq<Particle>) -> Seq<u64> {
    Seq::new(s.len(), |i: int| s[i].shown_size() as u64)
}

/// The colour buffer: red, green, blue and alpha of each particle, slot after
/// slot.
pub open spec fn colors_of(s: Seq<Particle>) -> Seq<u64> {
    Seq::new(4 * s.len(), |k: int| channel(s[k / 4].shown_color(), k % 4))
}

/// The three buffers speak of the same particles in the same order: what
/// stands at index `i` of the size buffer, at `3 * i` of the position buffer
/// and at `4 * i` of the colour buffer is computed from the particle in slot
/// `i`. The green channel is the same for all.
pub proof fn lemma_buffers_correspond(s: Seq<Particle>, i: int)
    requires
        all_alive(s),
        0 <= i < s.len(),
    ensures
        positions_of(s).len() == 3 * s.len(),
        sizes_of(s).len() == s.len(),
        colors_of(s).len() == 4 * s.len(),
        positions_of(s)[3 * i] == s[i].x,
        positions_of(s)[3 * i + 1] == s[i].y,
        positions_of(s)[3 * i + 2] == s[i].z,
        sizes_of(s)[i] == s[i].shown_size(),
        sizes_of(s)[i] == (s[i].size * (ONE - (s[i].life * ONE) / (s[i].max_life as int))) / (
        ONE as int),
        sizes_of(s)[i] <= s[i].size,
        colors_of(s)[4 * i] == ONE - s[i].progress(),
        colors_of(s)[4 * i + 1] == GREEN,
        colors_of(s)[4 * i + 2] == s[i].progress(),
        colors_of(s)[4 * i + 3] == ONE - s[i].progress(),
        0 <= s[i].progress() < ONE,
{
    let p = s[i];
    assert(p.alive());
    lemma_fraction_below_one(p.life, p.max_life);
    lemma_scaled_bounds(p.size, ONE - p.progress());
}

/// The position of every particle, as `[x0, y0, z0, x1, y1, z1, ...]`.
pub fn positions(store: &ParticleStore) -> (out: Vec<i64>)
    ensures
        out@ == positions_of(store@),
{
    let n = store.count();
    let mut out: Vec<i64> = Vec::new();
    let mut i: usize = 0;
    while i < n
        invariant
            n == store@.len(),
            i <= n,
            out@.len() == 3 * i,
            forall|k: int| 0 <= k < out@.len() ==> out@[k] == coordinate(store@[k / 3], k % 3),
        decreases n - i,
    {
        let p = store.get(i);
        out.push(p.x);
        out.push(p.y);
        out.push(p.z);
        i = i + 1;
    }
    assert(out@ =~= positions_of(store@));
    out
}

/// The shown size of every particle.
pub fn sizes(store: &ParticleStore) -> (out: Vec<u64>)
    requires
        all_alive(store@),
    ensures
        out@ == sizes_of(store@),
{
    let n = store.count();
    let mut out: Vec<u64> = Vec::new();
    let mut i: usize = 0;
    while i < n
        invariant
            n == store@.len(),
            all_alive(store@),
            i <= n,
            out@.len() == i,
            forall|k: int| 0 <= k < i ==> out@[k] == store@[k].shown_size(),
        decreases n - i,
    {
        let p = store.get(i);
        assert(p.alive());
        out.push(p.display_size());
        i = i + 1;
    }
    assert(out@ =~= sizes_of(store@));
    out
}

/// The colour of every particle, as `[r0, g0, b0, a0, r1, g1, b1, a1, ...]`.
pub fn colors(store: &ParticleStore) -> (out: Vec<u64>)
    requires
        all_alive(store@),
    ensures
        out@ == colors_of(store@),
{
    let n = store.count();
    let mut out: Vec<u64> = Vec::new();
    let mut i: usize = 0;
    while i < n
        invariant
            n == store@.len(),
            all_alive(store@),
            i <= n,
            out@.len() == 4 * i,
            forall|k: int|
                0 <= k < out@.len() ==> out@[k] == channel(store@[k / 4].shown_color(), k % 4),
        decreases n - i,
    {
        let p = store.get(i);
        assert(p.alive());
        let c = p.display_color();
        out.push(c.red);
        out.push(c.green);
        out.push(c.blue);
        out.push(c.alpha);
        i = i + 1;
    }
    assert(out@ =~= colors_of(store@));
    out
}

} // verus!
