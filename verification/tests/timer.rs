use particle_system::timer::Timer;

#[test]
fn timer_measures_frames_and_the_time_since_it_was_made() {
    let mut timer = Timer::new();
    let millisecond = std::time::Duration::from_millis(1);
    while timer.elapsed() < millisecond {}
    let first = timer.tick();
    assert!(first >= millisecond);
    let second = timer.tick();
    let third = timer.tick();
    let elapsed = timer.elapsed();
    assert!(elapsed >= first + second + third);
    assert!(timer.elapsed() >= elapsed);
    assert!(Timer::default().elapsed() <= timer.elapsed());
}
