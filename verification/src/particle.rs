//! The lifecycle part of a particle record.

use vstd::prelude::*;

verus! {

/// What the stages decide on: how long a particle lives and how long it has
/// lived, both in nanoseconds. Motion state is no part of it.
#[derive(Clone, Copy, Debug, PartialEq, Eq, Structural)]
pub struct Particle {
    pub lifetime: u64,
    pub age: u64,
}

impl Particle {
    /// A particle is alive while its age is below its lifetime.
    pub open spec fn is_alive(self) -> bool {
        self.age < self.lifetime
    }

    /// The particle after `delta_time` more nanoseconds. The age stops at the
    /// largest value it can hold.
    pub open spec fn aged(self, delta_time: nat) -> Particle {
        Particle {
            lifetime: self.lifetime,
            age: if self.age + delta_time <= u64::MAX {
                (self.age + delta_time) as u64
            } else {
                u64::MAX
            },
        }
    }

    /// A newborn particle.
    pub open spec fn spawned(lifetime: u64) -> Particle {
        Particle { lifetime, age: 0 }
    }

    /// What a slot holds before anything was written to it. It is not alive.
    pub open spec fn vacant() -> Particle {
        Particle { lifetime: 0, age: 0 }
    }

    pub fn alive(&self) -> (alive: bool)
        ensures
            alive == self.is_alive(),
        no_unwind
    {
        self.age < self.lifetime
    }

    pub fn age_by(&self, delta_time: u64) -> (older: Particle)
        ensures
            older == self.aged(delta_time as nat),
        no_unwind
    {
        let age: u64 = if delta_time <= u64::MAX - self.age {
            self.age + delta_time
        } else {
            u64::MAX
        };
        Particle { lifetime: self.lifetime, age }
    }

    pub fn spawn(lifetime: u64) -> (particle: Particle)
        ensures
            particle == Particle::spawned(lifetime),
        no_unwind
    {
        Particle { lifetime, age: 0 }
    }

    pub fn empty_slot() -> (particle: Particle)
        ensures
            particle == Particle::vacant(),
    {
        Particle { lifetime: 0, age: 0 }
    }
}

} // verus!
