//! The particle system: the store, the emission policy and the simulation
//! state, driven one stage at a time or one frame at a time.

use vstd::prelude::*;
use crate::emission::{
    EmissionModel, EmissionState, ParticleEmissionMode, ParticleEmissionShape,
};
use crate::particle::Particle;
use crate::render::{IndirectArgs, ParticleRenderShape};
use crate::stages::same_alive;
use crate::store::{ParticleStore, StoreModel};

verus! {

/// Whether the stages run. Drawing is not affected.
#[derive(Clone, Copy, Debug, PartialEq, Eq, Structural)]
pub enum SimulationState {
    Playing,
    Paused,
}

/// What a particle system is built from. None of it changes afterwards, but
/// for the render shape, which can be toggled.
#[derive(Clone, Copy, Debug, PartialEq, Eq, Structural)]
pub struct ParticleSystemInfo {
    pub mode: ParticleEmissionMode,
    pub shape: ParticleEmissionShape,
    pub render_shape: ParticleRenderShape,
    /// The lifespan of every particle, in nanoseconds.
    pub lifetime: u64,
}

impl ParticleSystemInfo {
    /// The number of slots that a system built from this needs.
    pub open spec fn capacity(self) -> nat {
        self.mode.capacity(self.lifetime as nat)
    }
}

/// What the update kernel is told about time, in nanoseconds.
#[derive(Clone, Copy, Debug, PartialEq, Eq, Structural)]
pub struct UpdateUniforms {
    /// Simulated time since construction or the last restart, this frame
    /// included.
    pub elapsed_time: u64,
    pub delta_time: u64,
}

/// What the emit kernel is told: how many particles to spawn, from which
/// volume, with which lifetime, and the simulated time at which it runs.
#[derive(Clone, Copy, Debug, PartialEq, Eq, Structural)]
pub struct EmitUniforms {
    pub count: u32,
    pub shape: u32,
    pub lifetime: u64,
    pub elapsed_time: u64,
}

/// One of the four commands that the system takes between frames.
#[derive(Clone, Copy, Debug, PartialEq, Eq, Structural)]
pub enum Command {
    Pause,
    Resume,
    Restart,
    ToggleShape,
}

/// What drives a system: a frame of some nanoseconds, or a command.
#[derive(Clone, Copy, Debug, PartialEq, Eq, Structural)]
pub enum Input {
    Frame(u64),
    Command(Command),
}

/// The particle system as a mathematical value.
pub struct SystemModel {
    pub store: StoreModel,
    pub emission: EmissionModel,
    pub emission_shape: ParticleEmissionShape,
    pub render_shape: ParticleRenderShape,
    pub lifetime: u64,
    pub state: SimulationState,
    /// Simulated nanoseconds since construction or the last restart.
    pub elapsed_time: nat,
}

impl SystemModel {
    /// The store is well formed, its capacity is the one that the emission
    /// mode and the lifetime call for, and the clock fits its counter.
    pub open spec fn wf(self) -> bool {
        &&& self.store.wf()
        &&& self.store.max_particles == self.emission.mode.capacity(self.lifetime as nat)
        &&& self.elapsed_time <= u64::MAX
    }

    /// The system right after construction.
    pub open spec fn initial(info: ParticleSystemInfo) -> SystemModel {
        SystemModel {
            store: StoreModel::empty(info.capacity()),
            emission: EmissionModel::initial(info.mode),
            emission_shape: info.shape,
            render_shape: info.render_shape,
            lifetime: info.lifetime,
            state: SimulationState::Playing,
            elapsed_time: 0,
        }
    }

    /// What the system was built from, with the render shape as it is now.
    pub open spec fn info(self) -> ParticleSystemInfo {
        ParticleSystemInfo {
            mode: self.emission.mode,
            shape: self.emission_shape,
            render_shape: self.render_shape,
            lifetime: self.lifetime,
        }
    }

    pub open spec fn is_paused(self) -> bool {
        self.state == SimulationState::Paused
    }

    /// The particles that the system holds.
    pub open spec fn particles(self) -> Seq<Particle> {
        self.store.particles()
    }

    /// The clock after `delta_time` more nanoseconds. It stops at the
    /// largest value it can hold.
    pub open spec fn clock_after(self, delta_time: nat) -> nat {
        if self.elapsed_time + delta_time <= u64::MAX {
            self.elapsed_time + delta_time
        } else {
            u64::MAX as nat
        }
    }

    pub open spec fn paused(self) -> SystemModel {
        SystemModel { state: SimulationState::Paused, ..self }
    }

    pub open spec fn resumed(self) -> SystemModel {
        SystemModel { state: SimulationState::Playing, ..self }
    }

    /// After a restart: no particle held, nothing carried, the clock at
    /// zero, a burst free to fire again, and the stages running. No slot of
    /// either buffer is written.
    pub open spec fn restarted(self) -> SystemModel {
        SystemModel {
            store: self.store.cleared(),
            emission: EmissionModel::initial(self.emission.mode),
            state: SimulationState::Playing,
            elapsed_time: 0,
            ..self
        }
    }

    pub open spec fn shape_toggled(self) -> SystemModel {
        SystemModel { render_shape: self.render_shape.spec_toggled(), ..self }
    }

    /// After the compact stage, which a paused system skips.
    pub open spec fn compacted(self) -> SystemModel {
        if self.is_paused() {
            self
        } else {
            SystemModel { store: self.store.compacted(), ..self }
        }
    }

    /// After the update stage, which a paused system skips.
    pub open spec fn updated(self, delta_time: nat) -> SystemModel {
        if self.is_paused() {
            self
        } else {
            SystemModel {
                store: self.store.updated(delta_time),
                elapsed_time: self.clock_after(delta_time),
                ..self
            }
        }
    }

    /// The number of particles that the emit stage spawns in a frame of
    /// `delta_time` nanoseconds.
    pub open spec fn emit_count(self, delta_time: nat) -> nat {
        if self.is_paused() {
            0
        } else {
            self.emission.granted(delta_time, self.store.free_slots())
        }
    }

    /// After the emit stage, which a paused system skips.
    pub open spec fn emitted(self, delta_time: nat) -> SystemModel {
        if self.is_paused() {
            self
        } else {
            SystemModel {
                store: self.store.emitted(self.emit_count(delta_time), self.lifetime),
                emission: self.emission.step(delta_time, self.store.free_slots()),
                ..self
            }
        }
    }

    /// After one frame: compact, then update, then emit.
    pub open spec fn stepped(self, delta_time: nat) -> SystemModel {
        self.compacted().updated(delta_time).emitted(delta_time)
    }

    /// After a command.
    pub open spec fn commanded(self, command: Command) -> SystemModel {
        match command {
            Command::Pause => self.paused(),
            Command::Resume => self.resumed(),
            Command::Restart => self.restarted(),
            Command::ToggleShape => self.shape_toggled(),
        }
    }

    /// After one input.
    pub open spec fn driven(self, input: Input) -> SystemModel {
        match input {
            Input::Frame(delta_time) => self.stepped(delta_time as nat),
            Input::Command(command) => self.commanded(command),
        }
    }

    /// After the inputs, taken in order.
    pub open spec fn after_inputs(self, inputs: Seq<Input>) -> SystemModel
        decreases inputs.len(),
    {
        if inputs.len() == 0 {
            self
        } else {
            self.after_inputs(inputs.drop_last()).driven(inputs.last())
        }
    }

    /// Whether two systems differ at most in what their dead slots hold:
    /// same configuration, state, clock and emission memory, same role and
    /// count, the same particles held in the same order, and in either
    /// buffer the same alive particles in the same slots.
    pub open spec fn agrees_with(self, other: SystemModel) -> bool {
        &&& self.store.max_particles == other.store.max_particles
        &&& self.store.role == other.store.role
        &&& self.store.alive_count == other.store.alive_count
        &&& self.particles() == other.particles()
        &&& same_alive(self.store.first, other.store.first)
        &&& same_alive(self.store.second, other.store.second)
        &&& self.emission == other.emission
        &&& self.emission_shape == other.emission_shape
        &&& self.render_shape == other.render_shape
        &&& self.lifetime == other.lifetime
        &&& self.state == other.state
        &&& self.elapsed_time == other.elapsed_time
    }

    /// The arguments of the draw that shows the particles held.
    pub open spec fn draw_args(self) -> IndirectArgs {
        IndirectArgs::drawing(self.render_shape, self.store.alive_count as u32)
    }
}

/// A particle system: a store sized for its emission mode, the emission
/// policy, and the state that gates the stages.
pub struct ParticleSystem {
    store: ParticleStore,
    emission: EmissionState,
    emission_shape: ParticleEmissionShape,
    render_shape: ParticleRenderShape,
    lifetime: u64,
    state: SimulationState,
    elapsed_time: u64,
}

impl View for ParticleSystem {
    type V = SystemModel;

    closed spec fn view(&self) -> SystemModel {
        SystemModel {
            store: self.store@,
            emission: self.emission@,
            emission_shape: self.emission_shape,
            render_shape: self.render_shape,
            lifetime: self.lifetime,
            state: self.state,
            elapsed_time: self.elapsed_time as nat,
        }
    }
}

impl ParticleSystem {
    #[verifier::type_invariant]
    spec fn inv(self) -> bool {
        self@.wf()
    }

    /// Builds the system with every slot vacant, or `None` where the
    /// capacity that the mode and the lifetime call for exceeds what a slot
    /// count can hold.
    pub fn new(info: ParticleSystemInfo) -> (system: Option<ParticleSystem>)
        ensures
            system.is_some() == (info.capacity() <= u32::MAX),
            system matches Some(built) ==> built@ == SystemModel::initial(info) && built@.wf(),
    {
        match info.mode.max_particles(info.lifetime) {
            Some(max_particles) => Some(
                ParticleSystem {
                    store: ParticleStore::new(max_particles),
                    emission: EmissionState::new(info.mode),
                    emission_shape: info.shape,
                    render_shape: info.render_shape,
                    lifetime: info.lifetime,
                    state: SimulationState::Playing,
                    elapsed_time: 0,
                },
            ),
            None => None,
        }
    }

    /// The compact stage. A paused system skips it. Returns what the counter
    /// buffer is reset to before the kernel runs, or `None` where the stage
    /// is skipped.
    pub fn compact(&mut self) -> (reset: Option<IndirectArgs>)
        ensures
            final(self)@ == old(self)@.compacted(),
            final(self)@.wf(),
            old(self)@.is_paused() ==> *final(self) == *old(self),
            reset == (if old(self)@.is_paused() {
                None
            } else {
                Some(IndirectArgs::drawing(old(self)@.render_shape, 0))
            }),
    {
        proof {
            use_type_invariant(&*self);
        }
        if self.is_paused() {
            return None;
        }
        self.store.compact();
        Some(IndirectArgs::draw(self.render_shape, 0))
    }

    /// The update stage. A paused system skips it. Returns what the kernel
    /// is told about time, or `None` where the stage is skipped.
    pub fn update(&mut self, delta_time: u64) -> (uniforms: Option<UpdateUniforms>)
        ensures
            final(self)@ == old(self)@.updated(delta_time as nat),
            final(self)@.wf(),
            old(self)@.is_paused() ==> *final(self) == *old(self),
            uniforms == (if old(self)@.is_paused() {
                None
            } else {
                Some(
                    UpdateUniforms {
                        elapsed_time: final(self)@.elapsed_time as u64,
                        delta_time,
                    },
                )
            }),
    {
        proof {
            use_type_invariant(&*self);
        }
        if self.is_paused() {
            return None;
        }
        self.store.update(delta_time);
        self.elapsed_time = if delta_time <= u64::MAX - self.elapsed_time {
            self.elapsed_time + delta_time
        } else {
            u64::MAX
        };
        Some(UpdateUniforms { elapsed_time: self.elapsed_time, delta_time })
    }

    /// The emit stage. A paused system skips it. Returns what the kernel is
    /// told, or `None` where the stage is skipped or spawns nothing.
    pub fn emit(&mut self, delta_time: u64) -> (uniforms: Option<EmitUniforms>)
        ensures
            final(self)@ == old(self)@.emitted(delta_time as nat),
            final(self)@.wf(),
            old(self)@.is_paused() ==> *final(self) == *old(self),
            uniforms == (if old(self)@.emit_count(delta_time as nat) == 0 {
                None
            } else {
                Some(
                    EmitUniforms {
                        count: old(self)@.emit_count(delta_time as nat) as u32,
                        shape: old(self)@.emission_shape.spec_index(),
                        lifetime: old(self)@.lifetime,
                        elapsed_time: old(self)@.elapsed_time as u64,
                    },
                )
            }),
    {
        proof {
            use_type_invariant(&*self);
        }
        if self.is_paused() {
            return None;
        }
        let free = self.store.free_slots();
        let count = self.emission.emit(delta_time, free);
        self.store.emit(count, self.lifetime);
        if count == 0 {
            None
        } else {
            Some(
                EmitUniforms {
                    count,
                    shape: self.emission_shape.index(),
                    lifetime: self.lifetime,
                    elapsed_time: self.elapsed_time,
                },
            )
        }
    }

    /// The arguments of the draw that shows the particles held. Drawing
    /// changes nothing and is not gated by the simulation state.
    pub fn render(&self) -> (args: IndirectArgs)
        ensures
            args == self@.draw_args(),
    {
        IndirectArgs::draw(self.render_shape, self.store.alive_count())
    }

    /// One frame: compact, update, emit, then the draw arguments.
    pub fn step(&mut self, delta_time: u64) -> (args: IndirectArgs)
        ensures
            final(self)@ == old(self)@.stepped(delta_time as nat),
            final(self)@.wf(),
            old(self)@.is_paused() ==> *final(self) == *old(self),
            args == final(self)@.draw_args(),
    {
        self.compact();
        self.update(delta_time);
        self.emit(delta_time);
        self.render()
    }

    pub fn pause(&mut self)
        ensures
            final(self)@ == old(self)@.paused(),
            final(self)@.wf(),
    {
        proof {
            use_type_invariant(&*self);
        }
        self.state = SimulationState::Paused;
    }

    pub fn resume(&mut self)
        ensures
            final(self)@ == old(self)@.resumed(),
            final(self)@.wf(),
    {
        proof {
            use_type_invariant(&*self);
        }
        self.state = SimulationState::Playing;
    }

    /// Zeroes the count of particles held and the role, forgets what
    /// emission carried, sets the clock to zero and lets the stages run. No
    /// slot is written: a record that is still alive in a buffer is found
    /// again by the next compaction of that buffer.
    pub fn restart(&mut self)
        ensures
            final(self)@ == old(self)@.restarted(),
            final(self)@.wf(),
    {
        proof {
            use_type_invariant(&*self);
        }
        self.store.reset();
        self.emission.reset();
        self.elapsed_time = 0;
        self.state = SimulationState::Playing;
    }

    /// Switches between drawing points and drawing quads.
    pub fn toggle_shape(&mut self)
        ensures
            final(self)@ == old(self)@.shape_toggled(),
            final(self)@.wf(),
    {
        proof {
            use_type_invariant(&*self);
        }
        self.render_shape = self.render_shape.toggled();
    }

    /// Carries out a command.
    pub fn apply(&mut self, command: Command)
        ensures
            final(self)@ == old(self)@.commanded(command),
            final(self)@.wf(),
    {
        match command {
            Command::Pause => self.pause(),
            Command::Resume => self.resume(),
            Command::Restart => self.restart(),
            Command::ToggleShape => self.toggle_shape(),
        }
    }

    /// Simulated nanoseconds since construction or the last restart.
    pub fn elapsed_time(&self) -> (elapsed: u64)
        ensures
            elapsed == self@.elapsed_time,
    {
        self.elapsed_time
    }

    pub fn is_paused(&self) -> (paused: bool)
        ensures
            paused == self@.is_paused(),
    {
        self.state == SimulationState::Paused
    }

    pub fn state(&self) -> (state: SimulationState)
        ensures
            state == self@.state,
    {
        self.state
    }

    pub fn max_particles(&self) -> (capacity: u32)
        ensures
            capacity == self@.store.max_particles,
    {
        self.store.max_particles()
    }

    pub fn alive_count(&self) -> (count: u32)
        ensures
            count == self@.store.alive_count,
            count <= self@.store.max_particles,
    {
        self.store.alive_count()
    }

    pub fn info(&self) -> (info: ParticleSystemInfo)
        ensures
            info == self@.info(),
    {
        ParticleSystemInfo {
            mode: self.emission.mode(),
            shape: self.emission_shape,
            render_shape: self.render_shape,
            lifetime: self.lifetime,
        }
    }

    pub fn store(&self) -> (store: &ParticleStore)
        ensures
            store@ == self@.store,
    {
        &self.store
    }

    pub fn emission(&self) -> (emission: &EmissionState)
        ensures
            emission@ == self@.emission,
    {
        &self.emission
    }
}

} // verus!
