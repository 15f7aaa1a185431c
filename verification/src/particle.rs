//! One simulated particle: its kinematics, its age, and what a renderer is
//! shown of it.

use vstd::prelude::*;
use crate::scalar::{ONE, add_clamped, aged, clamp, fraction, fraction_of, scale, scaled, sub_clamped};

verus! {

/// The green channel of every particle's colour.
pub const GREEN: u64 = 300_000;

/// A particle is a plain value: it has no identity beyond the slot it
/// occupies.
#[derive(Clone, Copy, Debug, PartialEq, Eq)]
pub struct Particle {
    pub x: i64,
    pub y: i64,
    pub z: i64,
    pub vx: i64,
    pub vy: i64,
    pub vz: i64,
    /// Simulated time since the particle was spawned.
    pub life: u64,
    /// The lifetime budget given at spawn.
    pub max_life: u64,
    /// The base size given at spawn.
    pub size: u64,
}

/// The red, green, blue and alpha channels of one particle.
#[derive(Clone, Copy, Debug, PartialEq, Eq)]
pub struct Rgba {
    pub red: u64,
    pub green: u64,
    pub blue: u64,
    pub alpha: u64,
}

impl Particle {
    /// The particle has not used up its lifetime budget.
    pub open spec fn alive(self) -> bool {
        self.life < self.max_life
    }

    /// The particle one tick later. The position moves by the velocity as it
    /// was before the tick, and gravity is taken off the vertical velocity;
    /// neither depends on the length of the tick. Only the age grows by it.
    pub open spec fn advanced(self, gravity: i64, dt: u64) -> Particle {
        Particle {
            x: clamp(self.x + self.vx),
            y: clamp(self.y + self.vy),
            z: clamp(self.z + self.vz),
            vx: self.vx,
            vy: clamp(self.vy - gravity),
            vz: self.vz,
            life: aged(self.life, dt),
            max_life: self.max_life,
            size: self.size,
        }
    }

    /// The fraction of its lifetime that the particle has used up.
    pub open spec fn progress(self) -> int {
        fraction(self.life, self.max_life)
    }

    /// The size shown: the base size, shrinking linearly to nothing over the
    /// particle's lifetime.
    pub open spec fn shown_size(self) -> int {
        scaled(self.size, ONE - self.progress())
    }

    /// The colour shown: red and alpha fade out with age, blue fades in, green
    /// is constant.
    pub open spec fn shown_color(self) -> Rgba {
        Rgba {
            red: (ONE - self.progress()) as u64,
            green: GREEN,
            blue: self.progress() as u64,
            alpha: (ONE - self.progress()) as u64,
        }
    }

    /// Whether the lifetime budget is used up.
    pub fn is_expired(&self) -> (r: bool)
        ensures
            r == !self.alive(),
    {
        self.life >= self.max_life
    }

    /// Advances the particle by one tick of length `delta_time`.
    pub fn advance(&self, gravity: i64, delta_time: u64) -> (p: Particle)
        ensures
            p == self.advanced(gravity, delta_time),
    {
        Particle {
            x: add_clamped(self.x, self.vx),
            y: add_clamped(self.y, self.vy),
            z: add_clamped(self.z, self.vz),
            vx: self.vx,
            vy: sub_clamped(self.vy, gravity),
            vz: self.vz,
            life: self.life.saturating_add(delta_time),
            max_life: self.max_life,
            size: self.size,
        }
    }

    /// The used-up fraction of the lifetime of a live particle.
    pub fn life_progress(&self) -> (r: u64)
        requires
            self.alive(),
        ensures
            r == self.progress(),
            r < ONE,
    {
        fraction_of(self.life, self.max_life)
    }

    /// The size at which a live particle is shown.
    pub fn display_size(&self) -> (r: u64)
        requires
            self.alive(),
        ensures
            r == self.shown_size(),
            r <= self.size,
    {
        let progress = self.life_progress();
        scale(self.size, ONE - progress)
    }

    /// The colour in which a live particle is shown.
    pub fn display_color(&self) -> (c: Rgba)
        requires
            self.alive(),
        ensures
            c == self.shown_color(),
            c.green == GREEN,
            c.red + c.blue == ONE,
            c.alpha == c.red,
    {
        let progress = self.life_progress();
        Rgba { red: ONE - progress, green: GREEN, blue: progress, alpha: ONE - progress }
    }
}

/// Every particle of `s` is alive.
pub open spec fn all_alive(s: Seq<Particle>) -> bool {
    forall|i: int| 0 <= i < s.len() ==> (#[trigger] s[i]).alive()
}

/// A particle that outlives a tick has aged by exactly the length of the tick.
pub proof fn lemma_survivor_aged_exactly(p: Particle, gravity: i64, dt: u64)
    requires
        p.advanced(gravity, dt).alive(),
    ensures
        p.advanced(gravity, dt).life == p.life + dt,
        p.alive(),
{
}

} // verus!
