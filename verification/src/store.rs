//! The bounded pool of live particles.
//!
//! The pool keeps no order of its own: removing a particle moves the last one
//! into the vacated slot, so a slot index is only meaningful until the next
//! removal.

use vstd::prelude::*;
use crate::particle::Particle;

verus! {

/// `s` with the item in slot `i` overwritten by the last item, and the last
/// slot given up.
pub open spec fn swap_removed(s: Seq<Particle>, i: int) -> Seq<Particle> {
    s.update(i, s.last()).drop_last()
}

/// A pool of at most `capacity` particles.
pub struct ParticleStore {
    particles: Vec<Particle>,
    capacity: usize,
}

impl View for ParticleStore {
    type V = Seq<Particle>;

    /// The live particles, by slot.
    closed spec fn view(&self) -> Seq<Particle> {
        self.particles@
    }
}

impl ParticleStore {
    /// The fixed maximum number of particles.
    pub closed spec fn spec_capacity(&self) -> usize {
        self.capacity
    }

    /// The pool never holds more than its capacity.
    pub open spec fn wf(&self) -> bool {
        self@.len() <= self.capacity()
    }

    /// An empty pool that will hold at most `capacity` particles.
    pub fn new(capacity: usize) -> (s: ParticleStore)
        ensures
            s.wf(),
            s@ == Seq::<Particle>::empty(),
            s.capacity() == capacity,
    {
        ParticleStore { particles: Vec::new(), capacity }
    }

    /// The number of live particles.
    pub fn count(&self) -> (n: usize)
        ensures
            n == self@.len(),
    {
        self.particles.len()
    }

    /// The fixed maximum number of particles.
    #[verifier::when_used_as_spec(spec_capacity)]
    pub fn capacity(&self) -> (c: usize)
        ensures
            c == self.capacity(),
    {
        self.capacity
    }

    /// The particle in slot `i`.
    pub fn get(&self, i: usize) -> (p: Particle)
        requires
            i < self@.len(),
        ensures
            p == self@[i as int],
    {
        self.particles[i]
    }

    /// Puts `p` into slot `i`, in place of the particle that was there.
    pub fn replace(&mut self, i: usize, p: Particle)
        requires
            i < old(self)@.len(),
        ensures
            final(self)@ == old(self)@.update(i as int, p),
            final(self).capacity() == old(self).capacity(),
    {
        self.particles[i] = p;
    }

    /// Appends `p` if there is room, and says whether it did. A full pool is
    /// left as it was.
    pub fn try_append(&mut self, p: Particle) -> (appended: bool)
        requires
            old(self).wf(),
        ensures
            final(self).wf(),
            final(self).capacity() == old(self).capacity(),
            appended == (old(self)@.len() < old(self).capacity()),
            appended ==> final(self)@ == old(self)@.push(p),
            !appended ==> final(self)@ == old(self)@,
    {
        if self.particles.len() < self.capacity {
            self.particles.push(p);
            true
        } else {
            false
        }
    }

    /// Removes the particle in slot `i`: the last particle takes its slot and
    /// the pool shrinks by one.
    pub fn remove_at(&mut self, i: usize)
        requires
            i < old(self)@.len(),
        ensures
            final(self)@ == swap_removed(old(self)@, i as int),
            final(self).capacity() == old(self).capacity(),
    {
        self.particles.swap_remove(i);
    }
}

} // verus!
