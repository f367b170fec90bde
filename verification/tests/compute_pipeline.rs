use particle_system::compute_pipeline::{
    ComputePass, ComputePipeline, COMPUTE_WORKGROUP_SIZE, PARTICLES_COUNT,
};

#[test]
fn compute_pipeline_constants() {
    assert_eq!(PARTICLES_COUNT, 65536);
    assert_eq!(COMPUTE_WORKGROUP_SIZE, 64);
}

#[test]
fn compute_pipeline_alternates_its_bind_groups() {
    let mut pipeline = ComputePipeline::new();
    assert_eq!(pipeline.particles_count(), 65536);
    assert_eq!(pipeline.particle_buffer(), 1);
    assert_eq!(pipeline.compute(), ComputePass { bind_group: 0, workgroups: 1024 });
    assert_eq!(pipeline.particle_buffer(), 0);
    assert_eq!(pipeline.compute(), ComputePass { bind_group: 1, workgroups: 1024 });
    assert_eq!(pipeline.particle_buffer(), 1);
    assert_eq!(pipeline.compute(), ComputePass { bind_group: 0, workgroups: 1024 });
    assert_eq!(pipeline.particles_count(), 65536);
}
