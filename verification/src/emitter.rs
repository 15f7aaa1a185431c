//! The emitter: where new particles come from, and with what they start.

use vstd::prelude::*;
use rand::rngs::ThreadRng;
use crate::particle::Particle;
use crate::random::random_range;
use crate::store::ParticleStore;

verus! {

/// Horizontal velocities are drawn from `-SPREAD ..= SPREAD`.
pub const SPREAD: i64 = 500_000;

/// Vertical velocities are drawn from `RISE_MIN ..= RISE_MAX`, so that a new
/// particle rises.
pub const RISE_MIN: i64 = 200_000;

pub const RISE_MAX: i64 = 700_000;

/// Lifetime budgets are drawn from `LIFETIME_MIN ..= LIFETIME_MAX`.
pub const LIFETIME_MIN: i64 = 2_000_000;

pub const LIFETIME_MAX: i64 = 4_000_000;

/// Base sizes are drawn from `SIZE_MIN ..= SIZE_MAX`.
pub const SIZE_MIN: i64 = 50_000;

pub const SIZE_MAX: i64 = 350_000;

/// The particle that starts at `origin` with the given velocity, lifetime
/// budget and base size, and with no time elapsed.
pub open spec fn launched(
    origin: (i64, i64, i64),
    vx: i64,
    vy: i64,
    vz: i64,
    max_life: u64,
    size: u64,
) -> Particle {
    Particle { x: origin.0, y: origin.1, z: origin.2, vx, vy, vz, life: 0, max_life, size }
}

/// What holds of every particle that `emit` makes at `origin`, whatever the
/// random source gave.
pub open spec fn emitted_at(p: Particle, origin: (i64, i64, i64)) -> bool {
    &&& p.x == origin.0
    &&& p.y == origin.1
    &&& p.z == origin.2
    &&& -SPREAD <= p.vx <= SPREAD
    &&& RISE_MIN <= p.vy <= RISE_MAX
    &&& -SPREAD <= p.vz <= SPREAD
    &&& p.life == 0
    &&& LIFETIME_MIN <= p.max_life <= LIFETIME_MAX
    &&& SIZE_MIN <= p.size <= SIZE_MAX
}

/// The smaller of two numbers.
pub open spec fn least(a: int, b: int) -> int {
    if a <= b {
        a
    } else {
        b
    }
}

/// An origin and the random source that the initial values are drawn from.
pub struct Emitter {
    x: i64,
    y: i64,
    z: i64,
    rng: ThreadRng,
}

impl Emitter {
    /// Where new particles start.
    pub closed spec fn origin(&self) -> (i64, i64, i64) {
        (self.x, self.y, self.z)
    }

    /// An emitter at the given origin, drawing from the generator of the
    /// current thread.
    pub fn new(x: i64, y: i64, z: i64) -> (e: Emitter)
        ensures
            e.origin() == (x, y, z),
    {
        Emitter { x, y, z, rng: rand::thread_rng() }
    }

    /// Moves the origin. Particles already emitted stay where they are.
    pub fn set_position(&mut self, x: i64, y: i64, z: i64)
        ensures
            final(self).origin() == (x, y, z),
    {
        self.x = x;
        self.y = y;
        self.z = z;
    }

    /// Puts one particle with the given initial values into `store`, if there
    /// is room, and says whether it did.
    pub fn spawn(
        &self,
        store: &mut ParticleStore,
        vx: i64,
        vy: i64,
        vz: i64,
        max_life: u64,
        size: u64,
    ) -> (appended: bool)
        requires
            old(store).wf(),
        ensures
            final(store).wf(),
            final(store).capacity() == old(store).capacity(),
            appended == (old(store)@.len() < old(store).capacity()),
            appended ==> final(store)@ == old(store)@.push(
                launched(self.origin(), vx, vy, vz, max_life, size),
            ),
            !appended ==> final(store)@ == old(store)@,
    {
        let p = Particle {
            x: self.x,
            y: self.y,
            z: self.z,
            vx,
            vy,
            vz,
            life: 0,
            max_life,
            size,
        };
        store.try_append(p)
    }

    /// Puts up to `count` new particles into `store` and stops, without
    /// failing, as soon as the store is full. The particles already there are
    /// not touched. Each new particle starts at the origin with no time
    /// elapsed; its velocity, lifetime budget and base size are drawn, in that
    /// order, from the random source.
    pub fn emit(&mut self, store: &mut ParticleStore, count: usize)
        requires
            old(store).wf(),
        ensures
            final(self).origin() == old(self).origin(),
            final(store).wf(),
            final(store).capacity() == old(store).capacity(),
            final(store)@.len() == least(
                old(store)@.len() + count,
                old(store).capacity() as int,
            ),
            final(store)@.subrange(0, old(store)@.len() as int) == old(store)@,
            forall|j: int|
                old(store)@.len() <= j < final(store)@.len() ==> emitted_at(
                    #[trigger] final(store)@[j],
                    old(self).origin(),
                ),
    {
        let mut emitted: usize = 0;
        while emitted < count && store.count() < store.capacity()
            invariant
                self.origin() == old(self).origin(),
                store.wf(),
                store.capacity() == old(store).capacity(),
                emitted <= count,
                store@.len() == old(store)@.len() + emitted,
                store@.subrange(0, old(store)@.len() as int) == old(store)@,
                forall|j: int|
                    old(store)@.len() <= j < store@.len() ==> emitted_at(
                        #[trigger] store@[j],
                        old(self).origin(),
                    ),
            decreases count - emitted,
        {
            let vx = random_range(&mut self.rng, -SPREAD, SPREAD);
            let vy = random_range(&mut self.rng, RISE_MIN, RISE_MAX);
            let vz = random_range(&mut self.rng, -SPREAD, SPREAD);
            let max_life = random_range(&mut self.rng, LIFETIME_MIN, LIFETIME_MAX);
            let size = random_range(&mut self.rng, SIZE_MIN, SIZE_MAX);
            let ghost before = store@;
            let appended = self.spawn(store, vx, vy, vz, max_life as u64, size as u64);
            assert(appended);
            assert(store@.subrange(0, old(store)@.len() as int) == before.subrange(
                0,
                old(store)@.len() as int,
            ));
            emitted = emitted + 1;
        }
    }
}

} // verus!
