//! Sizes that the kernels and the buffers on the device are given.

use vstd::prelude::*;

verus! {

/// Invocations in one workgroup of the emit, update and compact kernels.
pub const WORKGROUP_SIZE: u32 = 256;

/// Bytes of one particle record on the device: position and velocity of
/// four floats each, then mass, lifetime, age and one float of padding.
pub const PARTICLE_STRIDE: u64 = 48;

/// Bytes of the counter buffer: the four words of an indirect draw.
pub const INDIRECT_ARGS_SIZE: u64 = 16;

/// The least number of groups of `size` that hold `invocations`.
pub open spec fn groups_for(invocations: nat, size: nat) -> nat
    recommends
        size > 0,
{
    (invocations + size - 1) as nat / size
}

/// The workgroups to dispatch so that each of `invocations` slots gets one
/// invocation of a kernel with `size` invocations per workgroup.
pub fn workgroups_of(invocations: u32, size: u32) -> (groups: u32)
    requires
        size > 0,
    ensures
        groups == groups_for(invocations as nat, size as nat),
{
    let whole = invocations / size;
    let rest = invocations % size;
    proof {
        lemma_groups_for(invocations as nat, size as nat);
    }
    if rest == 0 {
        whole
    } else {
        whole + 1
    }
}

/// Rounding up adds one group exactly where the division leaves a rest. The
/// groups hold all invocations, one group fewer would not, and there are
/// never more groups than invocations.
pub proof fn lemma_groups_for(invocations: nat, size: nat)
    requires
        size > 0,
    ensures
        groups_for(invocations, size) == invocations / size + if invocations % size == 0 {
            0nat
        } else {
            1nat
        },
        groups_for(invocations, size) * size >= invocations,
        invocations > 0 ==> (groups_for(invocations, size) - 1) * size < invocations,
        groups_for(invocations, size) <= invocations,
{
    let whole = (invocations / size) as int;
    let rest = (invocations % size) as int;
    let size = size as int;
    vstd::arithmetic::div_mod::lemma_fundamental_div_mod(invocations as int, size);
    assert(invocations == whole * size + rest) by (nonlinear_arith)
        requires
            invocations == size * whole + rest,
    ;
    let groups = if rest == 0 {
        whole
    } else {
        whole + 1
    };
    if rest == 0 {
        vstd::arithmetic::div_mod::lemma_fundamental_div_mod_converse(
            invocations + size - 1,
            size,
            whole,
            size - 1,
        );
    } else {
        assert((whole + 1) * size == whole * size + size) by (nonlinear_arith);
        vstd::arithmetic::div_mod::lemma_fundamental_div_mod_converse(
            invocations + size - 1,
            size,
            whole + 1,
            rest - 1,
        );
    }
    assert(groups_for(invocations, size as nat) == groups);
    assert((groups - 1) * size == groups * size - size) by (nonlinear_arith);
    if invocations > 0 {
        assert(groups >= 1) by (nonlinear_arith)
            requires
                groups * size >= invocations,
                invocations > 0,
                size > 0,
        ;
        assert(groups - 1 <= (groups - 1) * size) by (nonlinear_arith)
            requires
                groups >= 1,
                size >= 1,
        ;
    }
}

/// The workgroups of a particle kernel over `invocations` slots.
pub fn workgroups(invocations: u32) -> (groups: u32)
    ensures
        groups == groups_for(invocations as nat, WORKGROUP_SIZE as nat),
{
    workgroups_of(invocations, WORKGROUP_SIZE)
}

/// Bytes of one particle buffer of `max_particles` slots.
pub fn particle_buffer_size(max_particles: u32) -> (bytes: u64)
    ensures
        bytes == max_particles * PARTICLE_STRIDE,
{
    max_particles as u64 * PARTICLE_STRIDE
}

} // verus!
