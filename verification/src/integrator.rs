//! The integrator: one simulation tick over the whole pool, and the removal
//! of what expired in it, as a single forward scan.

use vstd::prelude::*;
use crate::particle::{Particle, all_alive, lemma_survivor_aged_exactly};
use crate::store::{ParticleStore, swap_removed};

verus! {

/// Every particle of `s`, one tick later.
pub open spec fn ticked(s: Seq<Particle>, gravity: i64, dt: u64) -> Seq<Particle> {
    Seq::new(s.len(), |j: int| s[j].advanced(gravity, dt))
}

/// `s` after a forward scan from slot `from` that removes each expired
/// particle it meets. A removal moves the last particle into the slot under
/// the scan, so that slot is looked at again; otherwise the scan moves on.
pub open spec fn swept(s: Seq<Particle>, from: int) -> Seq<Particle>
    decreases s.len() - from,
{
    if from < 0 || from >= s.len() {
        s
    } else if s[from].alive() {
        swept(s, from + 1)
    } else {
        swept(swap_removed(s, from), from)
    }
}

/// The pool in the middle of a tick: the slots below `done` have been advanced
/// and found alive, the others are still to be advanced.
spec fn half_ticked(s: Seq<Particle>, done: int, gravity: i64, dt: u64) -> Seq<Particle> {
    Seq::new(
        s.len(),
        |j: int|
            if j < done {
                s[j]
            } else {
                s[j].advanced(gravity, dt)
            },
    )
}

/// How often `p` occurs in `s` from slot `from` on.
pub open spec fn occurrences(s: Seq<Particle>, from: int, p: Particle) -> nat
    decreases s.len() - from,
{
    if from < 0 || from >= s.len() {
        0
    } else if s[from] == p {
        1 + occurrences(s, from + 1, p)
    } else {
        occurrences(s, from + 1, p)
    }
}

/// The scan leaves the slots below its starting point as they were, and never
/// lengthens the pool.
pub proof fn lemma_swept_keeps_prefix(s: Seq<Particle>, from: int)
    requires
        0 <= from <= s.len(),
    ensures
        from <= swept(s, from).len() <= s.len(),
        forall|j: int| 0 <= j < from ==> swept(s, from)[j] == s[j],
    decreases s.len() - from,
{
    if from < s.len() {
        if s[from].alive() {
            lemma_swept_keeps_prefix(s, from + 1);
        } else {
            let t = swap_removed(s, from);
            lemma_swept_keeps_prefix(t, from);
            assert forall|j: int| 0 <= j < from implies swept(s, from)[j] == s[j] by {
                assert(t[j] == s[j]);
            }
        }
    }
}

/// After the scan no expired particle is left from its starting point on.
pub proof fn lemma_swept_alive(s: Seq<Particle>, from: int)
    requires
        0 <= from <= s.len(),
    ensures
        forall|j: int| from <= j < swept(s, from).len() ==> (#[trigger] swept(s, from)[j]).alive(),
    decreases s.len() - from,
{
    if from < s.len() {
        if s[from].alive() {
            lemma_swept_alive(s, from + 1);
            lemma_swept_keeps_prefix(s, from + 1);
            assert(swept(s, from) == swept(s, from + 1));
            assert forall|j: int| from <= j < swept(s, from).len() implies (#[trigger] swept(
                s,
                from,
            )[j]).alive() by {
                if j == from {
                    assert(swept(s, from + 1)[from] == s[from]);
                } else {
                    assert(swept(s, from + 1)[j].alive());
                }
            }
        } else {
            lemma_swept_alive(swap_removed(s, from), from);
            assert(swept(s, from) == swept(swap_removed(s, from), from));
        }
    }
}

/// Taking out slot `i` by swapping lowers the count of the particle that was
/// there by one, and no other count, among the slots from `from` on.
proof fn lemma_occurrences_swap_removed(s: Seq<Particle>, from: int, i: int, p: Particle)
    requires
        0 <= from <= i < s.len(),
    ensures
        occurrences(s, from, p) == occurrences(swap_removed(s, i), from, p) + if s[i] == p {
            1nat
        } else {
            0nat
        },
    decreases s.len() - from,
{
    let t = swap_removed(s, i);
    if from < i {
        lemma_occurrences_swap_removed(s, from + 1, i, p);
        assert(t[from] == s[from]);
    } else {
        lemma_occurrences_last(s, i + 1, p);
        if i + 1 < s.len() {
            // the last particle now stands in slot i, the rest is as it was
            assert(t[i] == s.last());
            lemma_occurrences_same(s.drop_last(), t, i + 1, p);
        } else {
            assert(t.len() == i);
        }
    }
}

/// Counting from `from` on, the last slot counts once if it holds `p`.
proof fn lemma_occurrences_last(s: Seq<Particle>, from: int, p: Particle)
    requires
        0 <= from <= s.len(),
    ensures
        from < s.len() ==> occurrences(s, from, p) == occurrences(s.drop_last(), from, p)
            + if s.last() == p {
            1nat
        } else {
            0nat
        },
        from == s.len() ==> occurrences(s, from, p) == 0,
    decreases s.len() - from,
{
    if from < s.len() {
        if from + 1 < s.len() {
            lemma_occurrences_last(s, from + 1, p);
            assert(s.drop_last()[from] == s[from]);
        } else {
            assert(occurrences(s, from + 1, p) == 0);
            assert(occurrences(s.drop_last(), from, p) == 0);
        }
    }
}

/// The count from `from` on depends only on the slots from `from` on.
proof fn lemma_occurrences_same(a: Seq<Particle>, b: Seq<Particle>, from: int, p: Particle)
    requires
        0 <= from,
        a.len() == b.len(),
        forall|j: int| from <= j < a.len() ==> a[j] == b[j],
    ensures
        occurrences(a, from, p) == occurrences(b, from, p),
    decreases a.len() - from,
{
    if from < a.len() {
        lemma_occurrences_same(a, b, from + 1, p);
    }
}

/// The scan loses no live particle and makes none up: from its starting point
/// on, each live particle occurs after the scan as often as before it.
pub proof fn lemma_swept_keeps_the_living(s: Seq<Particle>, from: int, p: Particle)
    requires
        0 <= from <= s.len(),
        p.alive(),
    ensures
        occurrences(swept(s, from), from, p) == occurrences(s, from, p),
    decreases s.len() - from,
{
    if from < s.len() {
        if s[from].alive() {
            lemma_swept_keeps_the_living(s, from + 1, p);
            lemma_swept_keeps_prefix(s, from + 1);
        } else {
            lemma_swept_keeps_the_living(swap_removed(s, from), from, p);
            lemma_occurrences_swap_removed(s, from, from, p);
        }
    }
}

/// A particle that occurs from `from` on stands in some slot there.
pub proof fn lemma_occurrence_slot(s: Seq<Particle>, from: int, p: Particle) -> (k: int)
    requires
        0 <= from,
        occurrences(s, from, p) > 0,
    ensures
        from <= k < s.len(),
        s[k] == p,
    decreases s.len() - from,
{
    if s[from] == p {
        from
    } else {
        lemma_occurrence_slot(s, from + 1, p)
    }
}

/// A particle that stands in a slot from `from` on occurs there.
pub proof fn lemma_slot_occurrence(s: Seq<Particle>, from: int, k: int)
    requires
        0 <= from <= k < s.len(),
    ensures
        occurrences(s, from, s[k]) > 0,
    decreases s.len() - from,
{
    if from < k {
        lemma_slot_occurrence(s, from + 1, k);
    }
}

/// Advances every particle of `store` by one tick of length `delta_time` under
/// `gravity`, and removes those whose lifetime is used up by it. The scan goes
/// by rising slot; a removal moves the last particle, not yet advanced, into
/// the slot under the scan, where it is advanced next.
pub fn update(store: &mut ParticleStore, gravity: i64, delta_time: u64)
    ensures
        final(store)@ == swept(ticked(old(store)@, gravity, delta_time), 0),
        final(store).capacity() == old(store).capacity(),
        all_alive(final(store)@),
        final(store)@.len() <= old(store)@.len(),
        old(store).wf() ==> final(store).wf(),
{
    let ghost target = ticked(old(store)@, gravity, delta_time);
    let mut i: usize = 0;
    proof {
        assert(half_ticked(store@, 0, gravity, delta_time) =~= target);
    }
    while i < store.count()
        invariant
            i <= store@.len(),
            store.capacity() == old(store).capacity(),
            store@.len() <= old(store)@.len(),
            swept(half_ticked(store@, i as int, gravity, delta_time), i as int) == swept(target, 0),
        decreases store@.len() - i,
    {
        let ghost before = store@;
        let ghost pending = half_ticked(before, i as int, gravity, delta_time);
        let p = store.get(i).advance(gravity, delta_time);
        assert(pending[i as int] == p);
        if p.is_expired() {
            store.remove_at(i);
            assert(half_ticked(store@, i as int, gravity, delta_time) =~= swap_removed(
                pending,
                i as int,
            ));
        } else {
            store.replace(i, p);
            i = i + 1;
            assert(half_ticked(store@, i as int, gravity, delta_time) =~= pending);
        }
    }
    proof {
        assert(half_ticked(store@, i as int, gravity, delta_time) =~= store@);
        lemma_swept_alive(target, 0);
        lemma_swept_keeps_prefix(target, 0);
    }
}

/// What a tick does to the pool. No expired particle is left. Each particle
/// that is left is a particle of before, advanced, and has aged by exactly
/// `dt`. And each particle of before that is alive once advanced is still
/// there, as often as before.
pub proof fn lemma_tick(s: Seq<Particle>, gravity: i64, dt: u64)
    ensures
        all_alive(swept(ticked(s, gravity, dt), 0)),
        swept(ticked(s, gravity, dt), 0).len() <= s.len(),
        forall|j: int|
            0 <= j < swept(ticked(s, gravity, dt), 0).len() ==> exists|k: int|
                0 <= k < s.len() && #[trigger] swept(ticked(s, gravity, dt), 0)[j] == (
                #[trigger] s[k]).advanced(gravity, dt) && swept(ticked(s, gravity, dt), 0)[j].life
                    == s[k].life + dt,
        forall|k: int|
            0 <= k < s.len() && (#[trigger] s[k]).advanced(gravity, dt).alive() ==> occurrences(
                swept(ticked(s, gravity, dt), 0),
                0,
                s[k].advanced(gravity, dt),
            ) == occurrences(ticked(s, gravity, dt), 0, s[k].advanced(gravity, dt)) > 0,
{
    let t = ticked(s, gravity, dt);
    let r = swept(t, 0);
    lemma_swept_alive(t, 0);
    lemma_swept_keeps_prefix(t, 0);
    assert forall|j: int| 0 <= j < r.len() implies exists|k: int|
        0 <= k < s.len() && #[trigger] r[j] == (#[trigger] s[k]).advanced(gravity, dt) && r[j].life
            == s[k].life + dt by {
        lemma_slot_occurrence(r, 0, j);
        lemma_swept_keeps_the_living(t, 0, r[j]);
        let k = lemma_occurrence_slot(t, 0, r[j]);
        lemma_survivor_aged_exactly(s[k], gravity, dt);
        assert(r[j] == s[k].advanced(gravity, dt));
    }
    assert forall|k: int|
        0 <= k < s.len() && (#[trigger] s[k]).advanced(gravity, dt).alive() implies occurrences(
        r,
        0,
        s[k].advanced(gravity, dt),
    ) == occurrences(t, 0, s[k].advanced(gravity, dt)) > 0 by {
        let p = s[k].advanced(gravity, dt);
        assert(t[k] == p);
        lemma_slot_occurrence(t, 0, k);
        lemma_swept_keeps_the_living(t, 0, p);
    }
}

} // verus!
