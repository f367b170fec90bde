use particle_system::dispatch::{
    particle_buffer_size, workgroups, workgroups_of, INDIRECT_ARGS_SIZE, PARTICLE_STRIDE,
    WORKGROUP_SIZE,
};

#[test]
fn counter_buffer_holds_four_words() {
    assert_eq!(INDIRECT_ARGS_SIZE, 16);
}

#[test]
fn workgroups_round_up() {
    assert_eq!(WORKGROUP_SIZE, 256);
    assert_eq!(workgroups(0), 0);
    assert_eq!(workgroups(1), 1);
    assert_eq!(workgroups(255), 1);
    assert_eq!(workgroups(256), 1);
    assert_eq!(workgroups(257), 2);
    assert_eq!(workgroups(1000), 4);
    assert_eq!(workgroups(1_000_000), 3907);
    assert_eq!(workgroups(u32::MAX), 16_777_216);
}

#[test]
fn workgroups_of_any_size_round_up() {
    assert_eq!(workgroups_of(65536, 64), 1024);
    assert_eq!(workgroups_of(65537, 64), 1025);
    assert_eq!(workgroups_of(u32::MAX, 1), u32::MAX);
    assert_eq!(workgroups_of(u32::MAX, 2), 2_147_483_648);
    assert_eq!(workgroups_of(u32::MAX, u32::MAX), 1);
    assert_eq!(workgroups_of(5, u32::MAX), 1);
    assert_eq!(workgroups_of(0, 7), 0);
    for invocations in 0..200u32 {
        for size in 1..20u32 {
            assert_eq!(workgroups_of(invocations, size), invocations.div_ceil(size));
        }
    }
}

#[test]
fn particle_buffer_holds_one_stride_per_slot() {
    assert_eq!(PARTICLE_STRIDE, 48);
    assert_eq!(particle_buffer_size(0), 0);
    assert_eq!(particle_buffer_size(1), 48);
    assert_eq!(particle_buffer_size(1_000_000), 48_000_000);
    assert_eq!(particle_buffer_size(u32::MAX), 48 * 4_294_967_295u64);
}
