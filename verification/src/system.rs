//! The particle system: the pool, the emitter and gravity under one roof, with
//! the calls that a host makes once per frame.

use vstd::prelude::*;
use crate::emitter::{Emitter, emitted_at, launched, least};
use crate::exporter::{colors, colors_of, positions, positions_of, sizes, sizes_of};
use crate::integrator::{swept, ticked, update};
use crate::particle::{Particle, all_alive};
use crate::store::ParticleStore;

verus! {

/// Gravity of a newly made system.
pub const DEFAULT_GRAVITY: i64 = 50_000;

/// A bounded pool of short-lived particles, the emitter that fills it, and the
/// gravity that acts on it.
pub struct ParticleSystem {
    store: ParticleStore,
    emitter: Emitter,
    gravity: i64,
}

impl View for ParticleSystem {
    type V = Seq<Particle>;

    /// The live particles, by slot. The order changes whenever a particle
    /// expires.
    closed spec fn view(&self) -> Seq<Particle> {
        self.store@
    }
}

impl ParticleSystem {
    /// The fixed maximum number of particles.
    pub closed spec fn capacity(&self) -> usize {
        self.store.capacity()
    }

    /// Where new particles start.
    pub closed spec fn origin(&self) -> (i64, i64, i64) {
        self.emitter.origin()
    }

    /// What is taken off the vertical velocity of every particle in each tick.
    pub closed spec fn gravity(&self) -> i64 {
        self.gravity
    }

    /// The system never holds more particles than its capacity, and none
    /// whose lifetime is used up.
    pub open spec fn wf(&self) -> bool {
        &&& self@.len() <= self.capacity()
        &&& all_alive(self@)
    }

    /// An empty system for at most `max_particles` particles, emitting at the
    /// given origin, under the default gravity. A capacity of zero is allowed:
    /// such a system stays empty.
    pub fn new(max_particles: usize, emitter_x: i64, emitter_y: i64, emitter_z: i64) -> (s:
        ParticleSystem)
        ensures
            s.wf(),
            s@ == Seq::<Particle>::empty(),
            s.capacity() == max_particles,
            s.origin() == (emitter_x, emitter_y, emitter_z),
            s.gravity() == DEFAULT_GRAVITY,
    {
        ParticleSystem {
            store: ParticleStore::new(max_particles),
            emitter: Emitter::new(emitter_x, emitter_y, emitter_z),
            gravity: DEFAULT_GRAVITY,
        }
    }

    /// Moves the emitter. Particles already emitted stay where they are.
    pub fn set_emitter_position(&mut self, x: i64, y: i64, z: i64)
        ensures
            final(self).origin() == (x, y, z),
            final(self)@ == old(self)@,
            final(self).capacity() == old(self).capacity(),
            final(self).gravity() == old(self).gravity(),
            final(self).wf() == old(self).wf(),
    {
        self.emitter.set_position(x, y, z);
    }

    /// Sets the gravity of the ticks to come.
    pub fn set_gravity(&mut self, gravity: i64)
        ensures
            final(self).gravity() == gravity,
            final(self)@ == old(self)@,
            final(self).capacity() == old(self).capacity(),
            final(self).origin() == old(self).origin(),
            final(self).wf() == old(self).wf(),
    {
        self.gravity = gravity;
    }

    /// Adds one particle with the given initial values at the emitter's
    /// origin, if there is room, and says whether it did. This is what `emit`
    /// does with each set of values that it has drawn.
    pub fn spawn(&mut self, vx: i64, vy: i64, vz: i64, max_life: u64, size: u64) -> (appended:
        bool)
        requires
            old(self).wf(),
            max_life > 0,
        ensures
            final(self).wf(),
            final(self).capacity() == old(self).capacity(),
            final(self).origin() == old(self).origin(),
            final(self).gravity() == old(self).gravity(),
            appended == (old(self)@.len() < old(self).capacity()),
            appended ==> final(self)@ == old(self)@.push(
                launched(old(self).origin(), vx, vy, vz, max_life, size),
            ),
            !appended ==> final(self)@ == old(self)@,
    {
        self.emitter.spawn(&mut self.store, vx, vy, vz, max_life, size)
    }

    /// Adds up to `count` new particles and stops, without failing, as soon as
    /// the system is full: what does not fit is dropped. The particles already
    /// there are not touched. Each new particle starts at the emitter's origin
    /// with no time elapsed, and with a velocity, a lifetime budget and a base
    /// size drawn from the random source.
    pub fn emit(&mut self, count: usize)
        requires
            old(self).wf(),
        ensures
            final(self).wf(),
            final(self).capacity() == old(self).capacity(),
            final(self).origin() == old(self).origin(),
            final(self).gravity() == old(self).gravity(),
            final(self)@.len() == least(old(self)@.len() + count, old(self).capacity() as int),
            final(self)@.subrange(0, old(self)@.len() as int) == old(self)@,
            forall|j: int|
                old(self)@.len() <= j < final(self)@.len() ==> emitted_at(
                    #[trigger] final(self)@[j],
                    old(self).origin(),
                ),
    {
        self.emitter.emit(&mut self.store, count);
        proof {
            let before = old(self)@;
            let after = self@;
            assert forall|j: int| 0 <= j < after.len() implies (#[trigger] after[j]).alive() by {
                if j < before.len() {
                    assert(after[j] == after.subrange(0, before.len() as int)[j]);
                } else {
                    assert(emitted_at(after[j], old(self).origin()));
                }
            }
        }
    }

    /// One simulation tick. Every particle moves by its velocity and loses
    /// `gravity` of vertical velocity, whatever the length of the tick, and
    /// ages by `delta_time`. Then the particles whose lifetime is used up are
    /// removed, in one forward scan in which the last particle takes the slot
    /// of each one removed.
    pub fn update(&mut self, delta_time: u64)
        requires
            old(self).wf(),
        ensures
            final(self).wf(),
            final(self)@ == swept(ticked(old(self)@, old(self).gravity(), delta_time), 0),
            final(self)@.len() <= old(self)@.len(),
            final(self).capacity() == old(self).capacity(),
            final(self).origin() == old(self).origin(),
            final(self).gravity() == old(self).gravity(),
    {
        update(&mut self.store, self.gravity, delta_time);
    }

    /// The position of every particle, as `[x0, y0, z0, x1, y1, z1, ...]`.
    pub fn get_particle_positions(&self) -> (out: Vec<i64>)
        ensures
            out@ == positions_of(self@),
    {
        positions(&self.store)
    }

    /// The shown size of every particle: its base size, shrunk by the fraction
    /// of its lifetime that it has used up.
    pub fn get_particle_sizes(&self) -> (out: Vec<u64>)
        requires
            self.wf(),
        ensures
            out@ == sizes_of(self@),
    {
        sizes(&self.store)
    }

    /// The colour of every particle, as `[r0, g0, b0, a0, r1, g1, b1, a1,
    /// ...]`.
    pub fn get_particle_colors(&self) -> (out: Vec<u64>)
        requires
            self.wf(),
        ensures
            out@ == colors_of(self@),
    {
        colors(&self.store)
    }

    /// The number of live particles, which never exceeds the capacity.
    pub fn get_particle_count(&self) -> (n: usize)
        ensures
            n == self@.len(),
            self.wf() ==> n <= self.capacity(),
    {
        self.store.count()
    }
}

} // verus!
