//! Bookkeeping of a single ping-pong kernel over a fixed number of particles.

use vstd::prelude::*;
use crate::dispatch::{groups_for, workgroups_of};

verus! {

/// Particles that the pipeline simulates.
pub const PARTICLES_COUNT: u32 = 65536;

/// Invocations in one workgroup of its kernel.
pub const COMPUTE_WORKGROUP_SIZE: u32 = 64;

/// One dispatch of the kernel: which of the two bind groups to use, and how
/// many workgroups. Bind group 0 reads buffer 0 and writes buffer 1; bind
/// group 1 reads buffer 1 and writes buffer 0.
#[derive(Clone, Copy, Debug, PartialEq, Eq, Structural)]
pub struct ComputePass {
    pub bind_group: usize,
    pub workgroups: u32,
}

/// Which buffer the next dispatch reads, and how many particles there are.
pub struct ComputePipeline {
    particles_count: u32,
    current_buffer: usize,
}

impl ComputePipeline {
    #[verifier::type_invariant]
    spec fn inv(self) -> bool {
        self.current_buffer <= 1
    }

    /// The buffer that the next dispatch reads: 0 or 1.
    pub closed spec fn current(&self) -> nat {
        self.current_buffer as nat
    }

    /// The number of particles.
    pub closed spec fn count(&self) -> nat {
        self.particles_count as nat
    }

    /// The pipeline before its first dispatch: buffer 0 is read first.
    pub fn new() -> (pipeline: ComputePipeline)
        ensures
            pipeline.current() == 0,
            pipeline.count() == PARTICLES_COUNT,
    {
        ComputePipeline { particles_count: PARTICLES_COUNT, current_buffer: 0 }
    }

    /// Plans one dispatch over all particles from the current buffer, and
    /// makes the other buffer current.
    pub fn compute(&mut self) -> (pass: ComputePass)
        ensures
            old(self).current() <= 1,
            final(self).current() == 1 - old(self).current(),
            final(self).count() == old(self).count(),
            pass.bind_group == old(self).current(),
            pass.workgroups == groups_for(old(self).count(), COMPUTE_WORKGROUP_SIZE as nat),
    {
        proof {
            use_type_invariant(&*self);
        }
        let pass = ComputePass {
            bind_group: self.current_buffer,
            workgroups: workgroups_of(self.particles_count, COMPUTE_WORKGROUP_SIZE),
        };
        self.current_buffer = 1 - self.current_buffer;
        pass
    }

    /// The buffer to draw from: the one that is not current.
    pub fn particle_buffer(&self) -> (buffer: usize)
        ensures
            self.current() <= 1,
            buffer == 1 - self.current(),
    {
        proof {
            use_type_invariant(self);
        }
        1 - self.current_buffer
    }

    pub fn particles_count(&self) -> (count: u32)
        ensures
            count == self.count(),
    {
        self.particles_count
    }
}

} // verus!
