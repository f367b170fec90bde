use particle_system::emission::{
    EmissionState, ParticleEmissionMode, ParticleEmissionShape, NANOS_PER_SECOND,
};

#[test]
fn shape_indices_follow_declaration_order() {
    assert_eq!(ParticleEmissionShape::Point.index(), 0);
    assert_eq!(ParticleEmissionShape::Sphere.index(), 1);
    assert_eq!(ParticleEmissionShape::Cube.index(), 2);
}

#[test]
fn burst_capacity_is_the_burst() {
    assert_eq!(ParticleEmissionMode::Burst(1000).max_particles(2 * NANOS_PER_SECOND), Some(1000));
    assert_eq!(ParticleEmissionMode::Burst(0).max_particles(0), Some(0));
    assert_eq!(ParticleEmissionMode::Burst(u32::MAX).max_particles(u64::MAX), Some(u32::MAX));
}

#[test]
fn continuous_capacity_is_rate_times_whole_seconds() {
    let mode = ParticleEmissionMode::Continuous(100);
    assert_eq!(mode.max_particles(2 * NANOS_PER_SECOND), Some(200));
    assert_eq!(mode.max_particles(2 * NANOS_PER_SECOND + 1), Some(300));
    assert_eq!(mode.max_particles(1_500_000_000), Some(200));
    assert_eq!(mode.max_particles(1), Some(100));
    assert_eq!(mode.max_particles(0), Some(0));
}

#[test]
fn continuous_capacity_that_does_not_fit_is_refused() {
    assert_eq!(ParticleEmissionMode::Continuous(u32::MAX).max_particles(NANOS_PER_SECOND), Some(u32::MAX));
    assert_eq!(ParticleEmissionMode::Continuous(u32::MAX).max_particles(NANOS_PER_SECOND + 1), None);
    assert_eq!(ParticleEmissionMode::Continuous(1).max_particles(u64::MAX), None);
    assert_eq!(ParticleEmissionMode::Continuous(0).max_particles(u64::MAX), Some(0));
    assert_eq!(ParticleEmissionMode::Continuous(65536).max_particles(65536 * NANOS_PER_SECOND), None);
    assert_eq!(
        ParticleEmissionMode::Continuous(65535).max_particles(65537 * NANOS_PER_SECOND),
        Some(65535 * 65537)
    );
}

#[test]
fn new_emission_state_carries_nothing() {
    let state = EmissionState::new(ParticleEmissionMode::Continuous(7));
    assert_eq!(state.mode(), ParticleEmissionMode::Continuous(7));
    assert_eq!(state.accumulated_emit(), 0);
    assert!(!state.burst_fired());
}

#[test]
fn burst_fires_once() {
    let mut state = EmissionState::new(ParticleEmissionMode::Burst(1000));
    assert_eq!(state.emit(16_666_667, 1000), 1000);
    assert!(state.burst_fired());
    assert_eq!(state.emit(16_666_667, 1000), 0);
    assert_eq!(state.emit(16_666_667, 1000), 0);
    assert_eq!(state.accumulated_emit(), 0);
}

#[test]
fn burst_that_does_not_fit_drops_the_rest() {
    let mut state = EmissionState::new(ParticleEmissionMode::Burst(1000));
    assert_eq!(state.emit(1, 400), 400);
    assert_eq!(state.emit(1, 1000), 0);
    assert_eq!(state.accumulated_emit(), 0);
}

#[test]
fn continuous_rate_carries_the_fraction() {
    let mut state = EmissionState::new(ParticleEmissionMode::Continuous(100));
    // 100 per second over 16_666_667 ns is 1.666_666_7 particles.
    assert_eq!(state.emit(16_666_667, 1000), 1);
    assert_eq!(state.accumulated_emit(), 666_666_700);
    assert_eq!(state.emit(16_666_667, 1000), 2);
    assert_eq!(state.accumulated_emit(), 333_333_400);
    assert_eq!(state.emit(16_666_667, 1000), 2);
    assert_eq!(state.accumulated_emit(), 100);
}

#[test]
fn continuous_rate_emits_the_rate_per_second() {
    let mut state = EmissionState::new(ParticleEmissionMode::Continuous(100));
    let mut total: u64 = 0;
    for _ in 0..60 {
        total += state.emit(16_666_667, u32::MAX) as u64;
    }
    assert_eq!(total, 100);
    assert_eq!(state.accumulated_emit(), 2_000);
    for _ in 0..(60 * 59) {
        total += state.emit(16_666_667, u32::MAX) as u64;
    }
    // One simulated minute in all: 3600 frames of a sixtieth of a second.
    assert_eq!(total, 6000);
    assert_eq!(state.accumulated_emit(), 120_000);
}

#[test]
fn continuous_rate_below_one_per_frame_still_emits() {
    let mut state = EmissionState::new(ParticleEmissionMode::Continuous(1));
    let mut total: u32 = 0;
    for _ in 0..1000 {
        total += state.emit(1_000_000, 10);
    }
    assert_eq!(total, 1);
    assert_eq!(state.accumulated_emit(), 0);
}

#[test]
fn continuous_rate_keeps_what_did_not_fit() {
    let mut state = EmissionState::new(ParticleEmissionMode::Continuous(10));
    // Ten particles are owed after one second, three slots are free.
    assert_eq!(state.emit(NANOS_PER_SECOND, 3), 3);
    assert_eq!(state.accumulated_emit(), 7 * NANOS_PER_SECOND as u128);
    // No time passes: the seven owed are asked for again.
    assert_eq!(state.emit(0, 5), 5);
    assert_eq!(state.accumulated_emit(), 2 * NANOS_PER_SECOND as u128);
    assert_eq!(state.emit(500_000_000, 100), 7);
    assert_eq!(state.accumulated_emit(), 0);
}

#[test]
fn emission_conserves_particles_frame_by_frame() {
    let mut state = EmissionState::new(ParticleEmissionMode::Continuous(37));
    let frames: [(u64, u32); 6] =
        [(16_000_000, 5), (1_000_000_000, 3), (0, 1), (123_456_789, 100), (999, 0), (7, 2)];
    let mut emitted: u128 = 0;
    let mut time: u128 = 0;
    for (delta_time, free) in frames {
        emitted += state.emit(delta_time, free) as u128;
        time += delta_time as u128;
        assert_eq!(emitted * NANOS_PER_SECOND as u128 + state.accumulated_emit(), 37 * time);
    }
}

#[test]
fn largest_rate_and_frame_are_carried_whole() {
    let mut state = EmissionState::new(ParticleEmissionMode::Continuous(u32::MAX));
    let gain = u32::MAX as u128 * u64::MAX as u128;
    // With no free slot everything is carried.
    for frame in 1..=10u128 {
        assert_eq!(state.emit(u64::MAX, 0), 0);
        assert_eq!(state.accumulated_emit(), frame * gain);
    }
    // All of it is asked for at once, and as much is spawned as there is room for.
    assert_eq!(state.emit(0, u32::MAX), u32::MAX);
    assert_eq!(
        state.accumulated_emit(),
        10 * gain - u32::MAX as u128 * NANOS_PER_SECOND as u128
    );
}

#[test]
fn reset_lets_a_burst_fire_again() {
    let mut burst = EmissionState::new(ParticleEmissionMode::Burst(5));
    assert_eq!(burst.emit(1, 10), 5);
    burst.reset();
    assert!(!burst.burst_fired());
    assert_eq!(burst.emit(1, 10), 5);

    let mut steady = EmissionState::new(ParticleEmissionMode::Continuous(3));
    assert_eq!(steady.emit(400_000_000, 10), 1);
    assert_eq!(steady.accumulated_emit(), 200_000_000);
    steady.reset();
    assert_eq!(steady.accumulated_emit(), 0);
    assert_eq!(steady.mode(), ParticleEmissionMode::Continuous(3));
}
