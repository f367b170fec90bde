//! What holds of the stages taken together: the capacity bound, aging,
//! compaction, emission accounting, pausing and restarting.

use vstd::prelude::*;
use vstd::arithmetic::div_mod::lemma_fundamental_div_mod_converse;
use vstd::arithmetic::mul::{lemma_mul_inequality, lemma_mul_is_distributive_add};
use crate::emission::{
    total_time, EmissionFrame, EmissionModel, ParticleEmissionMode, NANOS_PER_SECOND,
};
use crate::particle::Particle;
use crate::stages::{
    aged_buffer, compacted_buffer, lemma_alive_slot_has_place, lemma_survivors_are_alive,
    lemma_survivors_count, lemma_survivors_len, lemma_survivors_of_same_alive, newborn, place_of,
    same_alive, survivors,
};
use crate::store::StoreModel;
use crate::system::{Command, Input, ParticleSystemInfo, SystemModel};

verus! {

/// Compaction leaves a well-formed store of the same capacity with the
/// roles exchanged. It holds exactly the alive particles of the whole
/// buffer that was read, in their order, and that buffer is untouched.
pub proof fn lemma_compacted_store(store: StoreModel)
    requires
        store.wf(),
    ensures
        store.compacted().wf(),
        store.compacted().max_particles == store.max_particles,
        store.compacted().role == 1 - store.role,
        store.compacted().alive_count == survivors(store.current()).len(),
        store.compacted().particles() == survivors(store.current()),
        store.compacted().alternate() == store.current(),
        forall|slot: int|
            store.compacted().alive_count <= slot < store.max_particles
                ==> #[trigger] store.compacted().current()[slot] == store.alternate()[slot],
{
    lemma_survivors_len(store.current());
    let packed = survivors(store.current());
    let buffer = compacted_buffer(store.current(), store.alternate());
    assert(buffer.len() == store.max_particles);
    assert(buffer.take(packed.len() as int) =~= packed);
}

/// Compaction resets the counter before it counts: what it leaves does not
/// depend on the count that the store had.
pub proof fn lemma_compaction_ignores_count(store: StoreModel, count: nat)
    ensures
        (StoreModel { alive_count: count, ..store }).compacted() == store.compacted(),
{
}

/// An update leaves a well-formed store of the same capacity and count with
/// the roles exchanged. It holds the particles held before, each aged, and
/// the buffer that was read is untouched.
pub proof fn lemma_updated_store(store: StoreModel, delta_time: nat)
    requires
        store.wf(),
    ensures
        store.updated(delta_time).wf(),
        store.updated(delta_time).max_particles == store.max_particles,
        store.updated(delta_time).role == 1 - store.role,
        store.updated(delta_time).alive_count == store.alive_count,
        store.updated(delta_time).particles() == aged_buffer(store.particles(), delta_time),
        store.updated(delta_time).alternate() == store.current(),
{
    assert(store.updated(delta_time).particles() =~= aged_buffer(store.particles(), delta_time));
}

/// An emission leaves a well-formed store of the same capacity and role. It
/// holds the particles held before, followed by the granted number of
/// newborn ones; no slot but theirs is written, in either buffer.
pub proof fn lemma_emitted_store(store: StoreModel, count: nat, lifetime: u64)
    requires
        store.wf(),
    ensures
        store.emitted(count, lifetime).wf(),
        store.emitted(count, lifetime).max_particles == store.max_particles,
        store.emitted(count, lifetime).role == store.role,
        store.emitted(count, lifetime).alive_count == store.alive_count + store.granted(count),
        store.alive_count + store.granted(count) <= store.max_particles,
        store.emitted(count, lifetime).particles() == store.particles() + newborn(
            store.granted(count),
            lifetime,
        ),
        store.emitted(count, lifetime).alternate() == store.alternate(),
        forall|slot: int|
            0 <= slot < store.max_particles && !(store.alive_count <= slot < store.alive_count
                + store.granted(count)) ==> #[trigger] store.emitted(count, lifetime).current()[slot]
                == store.current()[slot],
{
    assert(store.emitted(count, lifetime).particles() =~= store.particles() + newborn(
        store.granted(count),
        lifetime,
    ));
}

/// Every stage and every command leaves a well-formed system of the same
/// capacity: the count of alive particles never exceeds the capacity.
pub proof fn lemma_input_keeps_capacity(system: SystemModel, input: Input)
    requires
        system.wf(),
    ensures
        system.driven(input).wf(),
        system.driven(input).store.max_particles == system.store.max_particles,
        system.driven(input).store.alive_count <= system.store.max_particles,
{
    match input {
        Input::Frame(delta_time) => {
            lemma_frame_keeps_capacity(system, delta_time as nat);
        },
        Input::Command(command) => {},
    }
}

/// A frame leaves a well-formed system of the same capacity.
pub proof fn lemma_frame_keeps_capacity(system: SystemModel, delta_time: nat)
    requires
        system.wf(),
    ensures
        system.compacted().wf(),
        system.compacted().updated(delta_time).wf(),
        system.stepped(delta_time).wf(),
        system.stepped(delta_time).store.max_particles == system.store.max_particles,
        system.stepped(delta_time).store.alive_count <= system.store.max_particles,
{
    if !system.is_paused() {
        lemma_compacted_store(system.store);
        let compacted = system.compacted();
        lemma_updated_store(compacted.store, delta_time);
        let updated = compacted.updated(delta_time);
        lemma_emitted_store(updated.store, updated.emit_count(delta_time), updated.lifetime);
    }
}

/// Whatever the inputs, the system stays well formed with the capacity it
/// was built with, and never holds more particles than that.
pub proof fn lemma_capacity_invariant(system: SystemModel, inputs: Seq<Input>)
    requires
        system.wf(),
    ensures
        system.after_inputs(inputs).wf(),
        system.after_inputs(inputs).store.max_particles == system.store.max_particles,
        system.after_inputs(inputs).store.alive_count <= system.store.max_particles,
    decreases inputs.len(),
{
    if inputs.len() > 0 {
        lemma_capacity_invariant(system, inputs.drop_last());
        lemma_input_keeps_capacity(system.after_inputs(inputs.drop_last()), inputs.last());
    }
}

/// An update never lowers the age of a particle and leaves its lifetime as
/// it was.
pub proof fn lemma_aging_monotone(store: StoreModel, delta_time: nat, slot: int)
    requires
        store.wf(),
        0 <= slot < store.alive_count,
    ensures
        store.updated(delta_time).particles()[slot] == store.particles()[slot].aged(delta_time),
        store.updated(delta_time).particles()[slot].lifetime == store.particles()[slot].lifetime,
        store.updated(delta_time).particles()[slot].age >= store.particles()[slot].age,
{
    lemma_updated_store(store, delta_time);
}

/// Compaction holds only alive particles, each of which stood in the buffer
/// that was read: a particle whose age has reached its lifetime is gone
/// after the next compaction, and no particle is altered by it.
pub proof fn lemma_dead_are_excluded(store: StoreModel, slot: int)
    requires
        store.wf(),
        0 <= slot < store.compacted().alive_count,
    ensures
        store.compacted().particles()[slot].is_alive(),
        store.current().contains(store.compacted().particles()[slot]),
{
    lemma_compacted_store(store);
    lemma_survivors_are_alive(store.current(), slot);
}

/// The particles after a frame of a running system: the alive ones of the
/// whole current buffer, in their order and each aged by the frame,
/// followed by the newborn ones.
pub proof fn lemma_frame_particles(system: SystemModel, delta_time: nat)
    requires
        system.wf(),
        !system.is_paused(),
    ensures
        system.stepped(delta_time).particles() == aged_buffer(
            survivors(system.store.current()),
            delta_time,
        ) + newborn(
            system.compacted().updated(delta_time).emit_count(delta_time),
            system.lifetime,
        ),
{
    lemma_compacted_store(system.store);
    let compacted = system.compacted();
    lemma_updated_store(compacted.store, delta_time);
    let updated = compacted.updated(delta_time);
    lemma_emitted_store(updated.store, updated.emit_count(delta_time), updated.lifetime);
}

/// After compaction each alive particle is held exactly as often as it
/// stood in the buffer that was read, in whichever slot below the capacity,
/// and no dead particle is held at all.
pub proof fn lemma_compaction_keeps_alive_set(store: StoreModel, particle: Particle)
    requires
        store.wf(),
    ensures
        store.compacted().particles().to_multiset().count(particle) == if particle.is_alive() {
            store.current().to_multiset().count(particle)
        } else {
            0
        },
        store.compacted().particles().contains(particle) <==> store.current().contains(particle)
            && particle.is_alive(),
{
    lemma_compacted_store(store);
    lemma_survivors_count(store.current(), particle);
    store.current().to_multiset_ensures();
    store.compacted().particles().to_multiset_ensures();
}

/// Compaction gives every alive slot of the buffer that it reads, wherever
/// below the capacity it lies, a place of its own below the new count, and
/// copies the particle there unaltered.
pub proof fn lemma_alive_slots_get_places(store: StoreModel, slot: int, other: int)
    requires
        store.wf(),
        0 <= slot < store.max_particles,
        store.current()[slot].is_alive(),
    ensures
        place_of(store.current(), slot) < store.compacted().alive_count,
        store.compacted().particles()[place_of(store.current(), slot) as int]
            == store.current()[slot],
        slot < other < store.max_particles ==> place_of(store.current(), slot) != place_of(
            store.current(),
            other,
        ),
{
    lemma_compacted_store(store);
    lemma_alive_slot_has_place(store.current(), slot, other);
}

/// Emission at a continuous rate neither loses nor invents particles: what
/// was spawned in the frames and what is still carried add up to what was
/// carried before and what the rate yields in the time that the frames
/// take. This holds as long as the accumulator can hold that sum, and then
/// the accumulator never reaches its largest value.
pub proof fn lemma_emission_conserved(emission: EmissionModel, rate: u32, frames: Seq<EmissionFrame>)
    requires
        emission.mode == ParticleEmissionMode::Continuous(rate),
        emission.accumulated_emit + rate * total_time(frames) <= u128::MAX,
    ensures
        emission.after_frames(frames).mode == emission.mode,
        emission.after_frames(frames).burst_fired == emission.burst_fired,
        emission.emitted_in(frames) * NANOS_PER_SECOND + emission.after_frames(
            frames,
        ).accumulated_emit == emission.accumulated_emit + rate * total_time(frames),
        frames.len() > 0 ==> emission.after_frames(frames.drop_last()).accrued(
            frames.last().delta_time,
        ) == emission.after_frames(frames.drop_last()).accumulated_emit + rate
            * frames.last().delta_time,
    decreases frames.len(),
{
    if frames.len() > 0 {
        let earlier = frames.drop_last();
        let frame = frames.last();
        lemma_mul_is_distributive_add(
            rate as int,
            total_time(earlier) as int,
            frame.delta_time as int,
        );
        lemma_mul_inequality(0, frame.delta_time as int, rate as int);
        assert(rate * frame.delta_time == frame.delta_time * rate) by (nonlinear_arith);
        lemma_emission_conserved(emission, rate, earlier);
    } else {
        assert(rate * total_time(frames) == 0) by (nonlinear_arith)
            requires
                total_time(frames) == 0,
        ;
    }
}

/// Where every frame found room for all that it asked for, the particles
/// spawned are the whole part, and what is carried is the fractional part,
/// of what was carried at first and what the rate yields in the time that
/// the frames take.
pub proof fn lemma_emission_rate(emission: EmissionModel, rate: u32, frames: Seq<EmissionFrame>)
    requires
        emission.mode == ParticleEmissionMode::Continuous(rate),
        emission.accumulated_emit < NANOS_PER_SECOND,
        emission.accumulated_emit + rate * total_time(frames) <= u128::MAX,
        emission.never_clamped(frames),
    ensures
        emission.emitted_in(frames) == (emission.accumulated_emit + rate * total_time(frames))
            / (NANOS_PER_SECOND as int),
        emission.after_frames(frames).accumulated_emit == (emission.accumulated_emit + rate
            * total_time(frames)) % (NANOS_PER_SECOND as int),
{
    lemma_emission_conserved(emission, rate, frames);
    assert(emission.after_frames(frames).accumulated_emit < NANOS_PER_SECOND);
    lemma_fundamental_div_mod_converse(
        emission.accumulated_emit + rate * total_time(frames),
        NANOS_PER_SECOND as int,
        emission.emitted_in(frames) as int,
        emission.after_frames(frames).accumulated_emit as int,
    );
}

/// Frames of one length take that length times their number.
pub proof fn lemma_total_time_of_equal_frames(frames: Seq<EmissionFrame>, delta_time: nat)
    requires
        forall|frame: int| 0 <= frame < frames.len() ==> frames[frame].delta_time == delta_time,
    ensures
        total_time(frames) == frames.len() * delta_time,
    decreases frames.len(),
{
    if frames.len() > 0 {
        lemma_total_time_of_equal_frames(frames.drop_last(), delta_time);
        assert(frames.len() * delta_time == (frames.len() - 1) * delta_time + delta_time)
            by (nonlinear_arith);
    }
}

/// From a fresh start and with frames of one length that all find room,
/// the number of particles spawned is the rate times the time that has
/// passed, in seconds, rounded down: it falls short of the exact product by
/// less than one particle, however many frames there are.
pub proof fn lemma_emission_at_fixed_step(rate: u32, delta_time: nat, frames: Seq<EmissionFrame>)
    requires
        forall|frame: int| 0 <= frame < frames.len() ==> frames[frame].delta_time == delta_time,
        rate * (frames.len() * delta_time) <= u128::MAX,
        EmissionModel::initial(ParticleEmissionMode::Continuous(rate)).never_clamped(frames),
    ensures
        EmissionModel::initial(ParticleEmissionMode::Continuous(rate)).emitted_in(frames) == (rate
            * (frames.len() * delta_time)) / (NANOS_PER_SECOND as int),
        EmissionModel::initial(ParticleEmissionMode::Continuous(rate)).emitted_in(frames)
            * NANOS_PER_SECOND <= rate * (frames.len() * delta_time),
        rate * (frames.len() * delta_time) < (EmissionModel::initial(
            ParticleEmissionMode::Continuous(rate),
        ).emitted_in(frames) + 1) * NANOS_PER_SECOND,
{
    lemma_total_time_of_equal_frames(frames, delta_time);
    lemma_emission_rate(EmissionModel::initial(ParticleEmissionMode::Continuous(rate)), rate, frames);
}

/// A burst fires in the first frame only: that frame spawns the burst as
/// far as it finds room, and no later frame spawns anything. Nothing is
/// carried from frame to frame.
pub proof fn lemma_burst_fires_once(emission: EmissionModel, count: u32, frames: Seq<EmissionFrame>)
    requires
        emission.mode == ParticleEmissionMode::Burst(count),
    ensures
        emission.after_frames(frames).mode == emission.mode,
        emission.after_frames(frames).accumulated_emit == emission.accumulated_emit,
        emission.after_frames(frames).burst_fired == (emission.burst_fired || frames.len() > 0),
        emission.emitted_in(frames) == if emission.burst_fired || frames.len() == 0 {
            0
        } else if count <= frames[0].free {
            count as nat
        } else {
            frames[0].free
        },
    decreases frames.len(),
{
    if frames.len() > 0 {
        lemma_burst_fires_once(emission, count, frames.drop_last());
        if frames.len() > 1 {
            assert(frames.drop_last()[0] == frames[0]);
        }
    }
}

/// A paused system skips every stage: compacting, updating, emitting and
/// whole frames leave it as it is, and nothing is spawned.
pub proof fn lemma_paused_is_inert(system: SystemModel, delta_time: nat)
    requires
        system.is_paused(),
    ensures
        system.compacted() == system,
        system.updated(delta_time) == system,
        system.emitted(delta_time) == system,
        system.stepped(delta_time) == system,
        system.emit_count(delta_time) == 0,
{
}

/// A system right after construction is well formed and holds nothing,
/// where its capacity fits a slot count.
pub proof fn lemma_initial_is_wf(info: ParticleSystemInfo)
    requires
        info.capacity() <= u32::MAX,
    ensures
        SystemModel::initial(info).wf(),
        SystemModel::initial(info).particles() == Seq::<Particle>::empty(),
        SystemModel::initial(info).info() == info,
{
    assert(SystemModel::initial(info).particles() =~= Seq::<Particle>::empty());
}

/// A restart leaves no particle held, nothing carried and the clock at
/// zero, with the stages running. It writes no slot: where neither buffer
/// holds an alive particle, the system agrees with one newly built from the
/// same configuration.
pub proof fn lemma_restart_matches_construction(system: SystemModel)
    requires
        system.wf(),
    ensures
        system.restarted().wf(),
        system.restarted().store.alive_count == 0,
        system.restarted().emission.accumulated_emit == 0,
        system.restarted().elapsed_time == 0,
        !system.restarted().is_paused(),
        system.restarted().store.first == system.store.first,
        system.restarted().store.second == system.store.second,
        system.store.none_alive() ==> system.restarted().agrees_with(
            SystemModel::initial(system.info()),
        ),
{
    assert(system.restarted().particles() =~= SystemModel::initial(system.info()).particles());
}

/// Two well-formed systems that agree still agree after the same input, and
/// draw the same.
pub proof fn lemma_input_preserves_agreement(one: SystemModel, other: SystemModel, input: Input)
    requires
        one.wf(),
        other.wf(),
        one.agrees_with(other),
    ensures
        one.driven(input).wf(),
        other.driven(input).wf(),
        one.driven(input).agrees_with(other.driven(input)),
        one.driven(input).draw_args() == other.driven(input).draw_args(),
{
    lemma_input_keeps_capacity(one, input);
    lemma_input_keeps_capacity(other, input);
    match input {
        Input::Frame(delta_time) => {
            if !one.is_paused() {
                let delta_time = delta_time as nat;
                lemma_compacted_store(one.store);
                lemma_compacted_store(other.store);
                lemma_survivors_of_same_alive(one.store.current(), other.store.current());
                let one_compacted = one.compacted();
                let other_compacted = other.compacted();
                assert(same_alive(one_compacted.store.current(), other_compacted.store.current()));
                lemma_updated_store(one_compacted.store, delta_time);
                lemma_updated_store(other_compacted.store, delta_time);
                let one_updated = one_compacted.updated(delta_time);
                let other_updated = other_compacted.updated(delta_time);
                assert(same_alive(one_updated.store.current(), other_updated.store.current()));
                lemma_emitted_store(
                    one_updated.store,
                    one_updated.emit_count(delta_time),
                    one_updated.lifetime,
                );
                lemma_emitted_store(
                    other_updated.store,
                    other_updated.emit_count(delta_time),
                    other_updated.lifetime,
                );
            }
        },
        Input::Command(command) => {
            match command {
                Command::Restart => {
                    assert(one.restarted().particles() =~= other.restarted().particles());
                },
                _ => {},
            }
        },
    }
}

/// Restarted where neither buffer holds an alive particle, and then driven
/// by the same inputs as a system newly built from the same configuration,
/// a system holds the same particles in every frame, and draws the same.
/// Alive particles that a restart finds in the buffers are not covered:
/// the next compaction brings them back.
pub proof fn lemma_restart_determinism(system: SystemModel, inputs: Seq<Input>)
    requires
        system.wf(),
        system.store.none_alive(),
    ensures
        system.restarted().after_inputs(inputs).wf(),
        SystemModel::initial(system.info()).after_inputs(inputs).wf(),
        system.restarted().after_inputs(inputs).agrees_with(
            SystemModel::initial(system.info()).after_inputs(inputs),
        ),
        system.restarted().after_inputs(inputs).draw_args() == SystemModel::initial(
            system.info(),
        ).after_inputs(inputs).draw_args(),
    decreases inputs.len(),
{
    lemma_restart_matches_construction(system);
    lemma_initial_is_wf(system.info());
    if inputs.len() > 0 {
        lemma_restart_determinism(system, inputs.drop_last());
        lemma_input_preserves_agreement(
            system.restarted().after_inputs(inputs.drop_last()),
            SystemModel::initial(system.info()).after_inputs(inputs.drop_last()),
            inputs.last(),
        );
    }
}

} // verus!
