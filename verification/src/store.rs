//! The particle store: two equally sized slot buffers, the role that says
//! which of them is current, and the count of alive particles at its front.

use vstd::prelude::*;
use crate::particle::Particle;
use crate::stages::{
    aged_buffer, compact_into, compacted_buffer, emit_into, lemma_survivors_len, none_alive,
    spawned_buffer, survivors, update_into,
};

verus! {

/// The store as a mathematical value.
pub struct StoreModel {
    /// The number of slots in each buffer.
    pub max_particles: nat,
    /// Which buffer is current: 0 for the first, 1 for the second.
    pub role: nat,
    /// The counter: the particles that the last compaction found alive and
    /// those spawned since. They stand at the front of the current buffer.
    pub alive_count: nat,
    pub first: Seq<Particle>,
    pub second: Seq<Particle>,
}

impl StoreModel {
    /// The count never exceeds the capacity, both buffers have exactly the
    /// capacity's number of slots, and the capacity fits a slot count.
    pub open spec fn wf(self) -> bool {
        &&& self.role <= 1
        &&& self.max_particles <= u32::MAX
        &&& self.alive_count <= self.max_particles
        &&& self.first.len() == self.max_particles
        &&& self.second.len() == self.max_particles
    }

    /// A store of `max_particles` slots in which nothing was written yet.
    pub open spec fn empty(max_particles: nat) -> StoreModel {
        StoreModel {
            max_particles,
            role: 0,
            alive_count: 0,
            first: Seq::new(max_particles, |slot: int| Particle::vacant()),
            second: Seq::new(max_particles, |slot: int| Particle::vacant()),
        }
    }

    /// The buffer that the last stage wrote.
    pub open spec fn current(self) -> Seq<Particle> {
        if self.role == 0 {
            self.first
        } else {
            self.second
        }
    }

    /// The buffer that the next moving stage will write.
    pub open spec fn alternate(self) -> Seq<Particle> {
        if self.role == 0 {
            self.second
        } else {
            self.first
        }
    }

    /// The particles that the store holds: the first `alive_count` slots of
    /// the current buffer, as the last compaction packed them and emission
    /// has added to them since.
    pub open spec fn particles(self) -> Seq<Particle> {
        self.current().take(self.alive_count as int)
    }

    /// Whether neither buffer holds an alive particle in any slot.
    pub open spec fn none_alive(self) -> bool {
        none_alive(self.first) && none_alive(self.second)
    }

    pub open spec fn free_slots(self) -> nat {
        (self.max_particles - self.alive_count) as nat
    }

    /// The same buffers with the roles exchanged.
    pub open spec fn swapped(self) -> StoreModel {
        StoreModel { role: (1 - self.role) as nat, ..self }
    }

    /// The same buffers with the count at zero and the first buffer current.
    pub open spec fn cleared(self) -> StoreModel {
        StoreModel { role: 0, alive_count: 0, ..self }
    }

    pub open spec fn with_current(self, buffer: Seq<Particle>) -> StoreModel {
        if self.role == 0 {
            StoreModel { first: buffer, ..self }
        } else {
            StoreModel { second: buffer, ..self }
        }
    }

    pub open spec fn with_alternate(self, buffer: Seq<Particle>) -> StoreModel {
        if self.role == 0 {
            StoreModel { second: buffer, ..self }
        } else {
            StoreModel { first: buffer, ..self }
        }
    }

    /// After compaction: every slot of the current buffer was tested,
    /// whatever the count was, and the alive particles stand packed at the
    /// front of what was the alternate buffer, which is now current. The
    /// count is their number.
    pub open spec fn compacted(self) -> StoreModel {
        StoreModel {
            alive_count: survivors(self.current()).len(),
            ..self.with_alternate(compacted_buffer(self.current(), self.alternate())).swapped()
        }
    }

    /// After an update: every slot of the current buffer stands, aged, in
    /// the same slot of what was the alternate buffer, which is now current.
    pub open spec fn updated(self, delta_time: nat) -> StoreModel {
        self.with_alternate(aged_buffer(self.current(), delta_time)).swapped()
    }

    /// The number of particles that an emission of `count` spawns.
    pub open spec fn granted(self, count: nat) -> nat {
        if count <= self.free_slots() {
            count
        } else {
            self.free_slots()
        }
    }

    /// After an emission: the granted number of newborn particles stand in
    /// the current buffer right behind the particles held before.
    pub open spec fn emitted(self, count: nat, lifetime: u64) -> StoreModel {
        StoreModel {
            alive_count: self.alive_count + self.granted(count),
            ..self.with_current(
                spawned_buffer(self.current(), self.alive_count, self.granted(count), lifetime),
            )
        }
    }
}

/// Two slot buffers of one fixed capacity with the bookkeeping of which is
/// current and how many particles stand at its front.
pub struct ParticleStore {
    max_particles: u32,
    role: u8,
    alive_count: u32,
    first: Vec<Particle>,
    second: Vec<Particle>,
}

impl View for ParticleStore {
    type V = StoreModel;

    closed spec fn view(&self) -> StoreModel {
        StoreModel {
            max_particles: self.max_particles as nat,
            role: self.role as nat,
            alive_count: self.alive_count as nat,
            first: self.first@,
            second: self.second@,
        }
    }
}

impl ParticleStore {
    #[verifier::type_invariant]
    spec fn inv(self) -> bool {
        self@.wf()
    }

    /// Allocates both buffers, every slot vacant.
    pub fn new(max_particles: u32) -> (store: ParticleStore)
        ensures
            store@ == StoreModel::empty(max_particles as nat),
            store@.wf(),
    {
        let mut first: Vec<Particle> = Vec::new();
        let mut second: Vec<Particle> = Vec::new();
        let mut slot: u32 = 0;
        while slot < max_particles
            invariant
                slot <= max_particles,
                first.len() == slot,
                second.len() == slot,
                forall|i: int| 0 <= i < slot ==> first@[i] == Particle::vacant(),
                forall|i: int| 0 <= i < slot ==> second@[i] == Particle::vacant(),
            decreases max_particles - slot,
        {
            first.push(Particle::empty_slot());
            second.push(Particle::empty_slot());
            slot = slot + 1;
        }
        assert(first@ =~= StoreModel::empty(max_particles as nat).first);
        assert(second@ =~= StoreModel::empty(max_particles as nat).second);
        ParticleStore { max_particles, role: 0, alive_count: 0, first, second }
    }

    pub fn max_particles(&self) -> (capacity: u32)
        ensures
            capacity == self@.max_particles,
    {
        self.max_particles
    }

    pub fn alive_count(&self) -> (count: u32)
        ensures
            count == self@.alive_count,
            count <= self@.max_particles,
    {
        proof {
            use_type_invariant(self);
        }
        self.alive_count
    }

    pub fn free_slots(&self) -> (free: u32)
        ensures
            free == self@.free_slots(),
    {
        proof {
            use_type_invariant(self);
        }
        self.max_particles - self.alive_count
    }

    /// 0 while the first buffer is current, 1 while the second is.
    pub fn current_role(&self) -> (role: usize)
        ensures
            role == self@.role,
            role <= 1,
    {
        proof {
            use_type_invariant(self);
        }
        self.role as usize
    }

    pub fn current_buffer(&self) -> (buffer: &Vec<Particle>)
        ensures
            buffer@ == self@.current(),
            buffer@.len() == self@.max_particles,
    {
        proof {
            use_type_invariant(self);
        }
        if self.role == 0 {
            &self.first
        } else {
            &self.second
        }
    }

    pub fn alternate_buffer(&self) -> (buffer: &Vec<Particle>)
        ensures
            buffer@ == self@.alternate(),
            buffer@.len() == self@.max_particles,
    {
        proof {
            use_type_invariant(self);
        }
        if self.role == 0 {
            &self.second
        } else {
            &self.first
        }
    }

    /// The particle in a slot below the count; `None` for a slot at or behind
    /// it.
    pub fn particle(&self, slot: u32) -> (particle: Option<Particle>)
        ensures
            particle == (if slot < self@.alive_count {
                Some(self@.particles()[slot as int])
            } else {
                None
            }),
    {
        proof {
            use_type_invariant(self);
        }
        if slot < self.alive_count {
            if self.role == 0 {
                Some(self.first[slot as usize])
            } else {
                Some(self.second[slot as usize])
            }
        } else {
            None
        }
    }

    /// Exchanges the roles of the two buffers. No slot is copied.
    pub fn swap_role(&mut self)
        ensures
            final(self)@ == old(self)@.swapped(),
            final(self)@.wf(),
        no_unwind
    {
        proof {
            use_type_invariant(&*self);
        }
        self.role = 1 - self.role;
    }

    /// Zeroes the count and the role. No slot is written or freed.
    pub fn reset(&mut self)
        ensures
            final(self)@ == old(self)@.cleared(),
            final(self)@.wf(),
        no_unwind
    {
        proof {
            use_type_invariant(&*self);
        }
        self.alive_count = 0;
        self.role = 0;
    }

    /// Tests every slot of the current buffer, whatever the count was, packs
    /// the alive particles at the front of the alternate buffer, makes that
    /// one current and returns the new count: the number of alive particles
    /// found.
    pub fn compact(&mut self) -> (count: u32)
        ensures
            final(self)@ == old(self)@.compacted(),
            final(self)@.wf(),
            count == survivors(old(self)@.current()).len(),
        no_unwind
    {
        proof {
            use_type_invariant(&*self);
            lemma_survivors_len(self@.current());
        }
        let packed = if self.role == 0 {
            compact_into(&self.first, &mut self.second)
        } else {
            compact_into(&self.second, &mut self.first)
        };
        self.alive_count = packed as u32;
        self.role = 1 - self.role;
        self.alive_count
    }

    /// Ages every slot of the current buffer into the alternate buffer and
    /// makes that one current.
    pub fn update(&mut self, delta_time: u64)
        ensures
            final(self)@ == old(self)@.updated(delta_time as nat),
            final(self)@.wf(),
        no_unwind
    {
        proof {
            use_type_invariant(&*self);
        }
        if self.role == 0 {
            update_into(&self.first, &mut self.second, delta_time);
        } else {
            update_into(&self.second, &mut self.first, delta_time);
        }
        self.role = 1 - self.role;
    }

    /// Spawns up to `count` particles behind the ones held, as far as free
    /// slots are left, and returns how many were spawned.
    pub fn emit(&mut self, count: u32, lifetime: u64) -> (granted: u32)
        ensures
            granted == old(self)@.granted(count as nat),
            final(self)@ == old(self)@.emitted(count as nat, lifetime),
            final(self)@.wf(),
        no_unwind
    {
        proof {
            use_type_invariant(&*self);
        }
        let free = self.max_particles - self.alive_count;
        let granted = if count <= free {
            count
        } else {
            free
        };
        if self.role == 0 {
            emit_into(&mut self.first, self.alive_count as usize, granted as usize, lifetime);
        } else {
            emit_into(&mut self.second, self.alive_count as usize, granted as usize, lifetime);
        }
        self.alive_count = self.alive_count + granted;
        granted
    }
}

} // verus!
