//! Emission policy: how many particles a frame asks for, and how the
//! fractional remainder of a continuous rate is carried from frame to frame.

use vstd::prelude::*;

verus! {

/// Nanoseconds in one second. The emission accumulator counts in units of
/// one particle divided by this number.
pub const NANOS_PER_SECOND: u64 = 1_000_000_000;

/// Volume from which the position of a new particle is sampled.
#[derive(Clone, Copy, Debug, PartialEq, Eq, Structural)]
pub enum ParticleEmissionShape {
    Point,
    Sphere,
    Cube,
}

impl ParticleEmissionShape {
    /// The number by which the emit kernel tells the shapes apart.
    pub open spec fn spec_index(self) -> u32 {
        match self {
            ParticleEmissionShape::Point => 0,
            ParticleEmissionShape::Sphere => 1,
            ParticleEmissionShape::Cube => 2,
        }
    }

    pub fn index(self) -> (i: u32)
        ensures
            i == self.spec_index(),
    {
        match self {
            ParticleEmissionShape::Point => 0,
            ParticleEmissionShape::Sphere => 1,
            ParticleEmissionShape::Cube => 2,
        }
    }
}

/// How many particles are spawned: all at once on the first frame, or at a
/// steady rate per second.
#[derive(Clone, Copy, Debug, PartialEq, Eq, Structural)]
pub enum ParticleEmissionMode {
    Burst(u32),
    Continuous(u32),
}

/// A lifetime in nanoseconds, rounded up to whole seconds.
pub open spec fn whole_seconds(lifetime: nat) -> nat {
    (lifetime + (NANOS_PER_SECOND - 1)) as nat / (NANOS_PER_SECOND as nat)
}

impl ParticleEmissionMode {
    /// The number of slots that the mode needs: the burst itself, or as many
    /// particles as a continuous rate spawns during one lifetime rounded up
    /// to whole seconds.
    pub open spec fn capacity(self, lifetime: nat) -> nat {
        match self {
            ParticleEmissionMode::Burst(count) => count as nat,
            ParticleEmissionMode::Continuous(rate) => rate as nat * whole_seconds(lifetime),
        }
    }

    /// The capacity as a slot count, or `None` where it does not fit one.
    pub fn max_particles(self, lifetime: u64) -> (capacity: Option<u32>)
        ensures
            capacity == (if self.capacity(lifetime as nat) <= u32::MAX {
                Some(self.capacity(lifetime as nat) as u32)
            } else {
                None
            }),
    {
        match self {
            ParticleEmissionMode::Burst(count) => Some(count),
            ParticleEmissionMode::Continuous(rate) => {
                let rest = lifetime % NANOS_PER_SECOND;
                let seconds: u64 = lifetime / NANOS_PER_SECOND + (if rest == 0 {
                    0
                } else {
                    1
                });
                assert(seconds == whole_seconds(lifetime as nat));
                assert(rate as nat * seconds as nat <= 0xffff_ffff * 0xffff_ffff_ffff_ffff)
                    by (nonlinear_arith)
                    requires
                        rate <= 0xffff_ffff,
                        seconds <= 0xffff_ffff_ffff_ffff,
                ;
                let slots: u128 = rate as u128 * seconds as u128;
                if slots <= u32::MAX as u128 {
                    Some(slots as u32)
                } else {
                    None
                }
            },
        }
    }
}

/// What the emission policy remembers between frames.
pub struct EmissionModel {
    pub mode: ParticleEmissionMode,
    /// Particles owed and not yet spawned, in units of `1 / NANOS_PER_SECOND`.
    pub accumulated_emit: nat,
    /// Whether a burst has already been spawned.
    pub burst_fired: bool,
}

impl EmissionModel {
    /// The state before the first frame.
    pub open spec fn initial(mode: ParticleEmissionMode) -> EmissionModel {
        EmissionModel { mode, accumulated_emit: 0, burst_fired: false }
    }

    /// The accumulator after `delta_time` nanoseconds have been added at the
    /// continuous rate. It stops growing at the largest value it can hold.
    pub open spec fn accrued(self, delta_time: nat) -> nat {
        match self.mode {
            ParticleEmissionMode::Burst(_) => self.accumulated_emit,
            ParticleEmissionMode::Continuous(rate) => {
                let sum = self.accumulated_emit + rate as nat * delta_time;
                if sum <= u128::MAX {
                    sum
                } else {
                    u128::MAX as nat
                }
            },
        }
    }

    /// The number of particles that the frame asks for, before capacity is
    /// taken into account.
    pub open spec fn requested(self, delta_time: nat) -> nat {
        match self.mode {
            ParticleEmissionMode::Burst(count) => if self.burst_fired {
                0
            } else {
                count as nat
            },
            ParticleEmissionMode::Continuous(_) => {
                self.accrued(delta_time) / (NANOS_PER_SECOND as nat)
            },
        }
    }

    /// The number of particles that the frame spawns when `free` slots are
    /// left.
    pub open spec fn granted(self, delta_time: nat, free: nat) -> nat {
        if self.requested(delta_time) <= free {
            self.requested(delta_time)
        } else {
            free
        }
    }

    /// The state after one frame of emission. A continuous rate keeps what it
    /// could not spawn; a burst fires once and drops what did not fit.
    pub open spec fn step(self, delta_time: nat, free: nat) -> EmissionModel {
        match self.mode {
            ParticleEmissionMode::Burst(_) => EmissionModel {
                mode: self.mode,
                accumulated_emit: self.accumulated_emit,
                burst_fired: true,
            },
            ParticleEmissionMode::Continuous(_) => EmissionModel {
                mode: self.mode,
                accumulated_emit: (self.accrued(delta_time) - self.granted(delta_time, free)
                    * NANOS_PER_SECOND) as nat,
                burst_fired: self.burst_fired,
            },
        }
    }
}

/// One frame as emission sees it: its length in nanoseconds, and the free
/// slots that it finds.
pub struct EmissionFrame {
    pub delta_time: nat,
    pub free: nat,
}

/// The nanoseconds that the frames take together.
pub open spec fn total_time(frames: Seq<EmissionFrame>) -> nat
    decreases frames.len(),
{
    if frames.len() == 0 {
        0
    } else {
        total_time(frames.drop_last()) + frames.last().delta_time
    }
}

impl EmissionModel {
    /// The state after the frames, taken in order.
    pub open spec fn after_frames(self, frames: Seq<EmissionFrame>) -> EmissionModel
        decreases frames.len(),
    {
        if frames.len() == 0 {
            self
        } else {
            self.after_frames(frames.drop_last()).step(
                frames.last().delta_time,
                frames.last().free,
            )
        }
    }

    /// The number of particles spawned in the frames together.
    pub open spec fn emitted_in(self, frames: Seq<EmissionFrame>) -> nat
        decreases frames.len(),
    {
        if frames.len() == 0 {
            0
        } else {
            self.emitted_in(frames.drop_last()) + self.after_frames(frames.drop_last()).granted(
                frames.last().delta_time,
                frames.last().free,
            )
        }
    }

    /// Whether every one of the frames found room for all that it asked for.
    pub open spec fn never_clamped(self, frames: Seq<EmissionFrame>) -> bool
        decreases frames.len(),
    {
        frames.len() == 0 || (self.never_clamped(frames.drop_last()) && self.after_frames(
            frames.drop_last(),
        ).requested(frames.last().delta_time) <= frames.last().free)
    }
}

/// The emission policy with its frame-to-frame memory.
#[derive(Clone, Copy, Debug)]
pub struct EmissionState {
    mode: ParticleEmissionMode,
    accumulated_emit: u128,
    burst_fired: bool,
}

impl View for EmissionState {
    type V = EmissionModel;

    closed spec fn view(&self) -> EmissionModel {
        EmissionModel {
            mode: self.mode,
            accumulated_emit: self.accumulated_emit as nat,
            burst_fired: self.burst_fired,
        }
    }
}

impl EmissionState {
    pub fn new(mode: ParticleEmissionMode) -> (state: EmissionState)
        ensures
            state@ == EmissionModel::initial(mode),
    {
        EmissionState { mode, accumulated_emit: 0, burst_fired: false }
    }

    pub fn mode(&self) -> (mode: ParticleEmissionMode)
        ensures
            mode == self@.mode,
    {
        self.mode
    }

    /// The carried remainder, in units of `1 / NANOS_PER_SECOND` particle.
    pub fn accumulated_emit(&self) -> (units: u128)
        ensures
            units == self@.accumulated_emit,
    {
        self.accumulated_emit
    }

    pub fn burst_fired(&self) -> (fired: bool)
        ensures
            fired == self@.burst_fired,
    {
        self.burst_fired
    }

    /// Forgets what was carried and lets a burst fire again.
    pub fn reset(&mut self)
        ensures
            final(self)@ == EmissionModel::initial(old(self)@.mode),
        no_unwind
    {
        self.accumulated_emit = 0;
        self.burst_fired = false;
    }

    /// Accounts for one frame of `delta_time` nanoseconds with `free` slots
    /// left, and returns the number of particles to spawn.
    pub fn emit(&mut self, delta_time: u64, free: u32) -> (count: u32)
        ensures
            count == old(self)@.granted(delta_time as nat, free as nat),
            final(self)@ == old(self)@.step(delta_time as nat, free as nat),
        no_unwind
    {
        match self.mode {
            ParticleEmissionMode::Burst(burst) => {
                let count: u32 = if self.burst_fired {
                    0
                } else if burst <= free {
                    burst
                } else {
                    free
                };
                self.burst_fired = true;
                count
            },
            ParticleEmissionMode::Continuous(rate) => {
                assert(rate as nat * delta_time as nat <= 0xffff_ffff * 0xffff_ffff_ffff_ffff)
                    by (nonlinear_arith)
                    requires
                        rate <= 0xffff_ffff,
                        delta_time <= 0xffff_ffff_ffff_ffff,
                ;
                let gain: u128 = rate as u128 * delta_time as u128;
                let accrued: u128 = if gain <= u128::MAX - self.accumulated_emit {
                    self.accumulated_emit + gain
                } else {
                    u128::MAX
                };
                assert(accrued == old(self)@.accrued(delta_time as nat));
                let requested: u128 = accrued / (NANOS_PER_SECOND as u128);
                let count: u32 = if requested <= free as u128 {
                    requested as u32
                } else {
                    free
                };
                assert(count * NANOS_PER_SECOND <= accrued) by {
                    assert(requested * NANOS_PER_SECOND <= accrued);
                }
                self.accumulated_emit = accrued - count as u128 * (NANOS_PER_SECOND as u128);
                count
            },
        }
    }
}

} // verus!
