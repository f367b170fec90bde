use particle_system::particle::Particle;
use particle_system::store::ParticleStore;

fn held(store: &ParticleStore) -> Vec<Particle> {
    (0..store.alive_count()).map(|slot| store.particle(slot).unwrap()).collect()
}

/// Writes a newborn particle to one slot of the current buffer, whatever the count is.
fn spawn_at(store: &mut ParticleStore, slot: u32, lifetime: u64) {
    let role = store.current_role();
    store.reset();
    if role == 0 {
        store.swap_role();
    }
    store.emit(slot, 0);
    store.swap_role();
    store.emit(1, lifetime);
}

/// Ages every slot and comes back to the buffer that was current.
fn age(store: &mut ParticleStore, delta_time: u64) {
    store.update(delta_time);
    store.update(0);
}

#[test]
fn particle_is_alive_while_age_is_below_lifetime() {
    assert!(Particle { lifetime: 10, age: 0 }.alive());
    assert!(Particle { lifetime: 10, age: 9 }.alive());
    assert!(!Particle { lifetime: 10, age: 10 }.alive());
    assert!(!Particle { lifetime: 10, age: 11 }.alive());
    assert!(!Particle { lifetime: 0, age: 0 }.alive());
    assert!(!Particle::empty_slot().alive());
    assert!(Particle::spawn(1).alive());
    assert!(!Particle::spawn(0).alive());
}

#[test]
fn particle_ages_and_keeps_its_lifetime() {
    let particle = Particle::spawn(100);
    assert_eq!(particle, Particle { lifetime: 100, age: 0 });
    assert_eq!(particle.age_by(30), Particle { lifetime: 100, age: 30 });
    assert_eq!(particle.age_by(30).age_by(0), Particle { lifetime: 100, age: 30 });
    assert_eq!(particle.age_by(30).age_by(70), Particle { lifetime: 100, age: 100 });
}

#[test]
fn particle_age_stops_at_the_largest_value() {
    let particle = Particle { lifetime: u64::MAX, age: u64::MAX - 5 };
    assert!(particle.alive());
    assert_eq!(particle.age_by(5).age, u64::MAX);
    assert_eq!(particle.age_by(6).age, u64::MAX);
    assert_eq!(particle.age_by(u64::MAX).age, u64::MAX);
    assert!(!particle.age_by(6).alive());
}

#[test]
fn new_store_is_vacant() {
    let store = ParticleStore::new(8);
    assert_eq!(store.max_particles(), 8);
    assert_eq!(store.alive_count(), 0);
    assert_eq!(store.free_slots(), 8);
    assert_eq!(store.current_role(), 0);
    assert_eq!(store.current_buffer().len(), 8);
    assert_eq!(store.alternate_buffer().len(), 8);
    assert!(store.current_buffer().iter().all(|slot| *slot == Particle::empty_slot()));
    assert!(store.alternate_buffer().iter().all(|slot| *slot == Particle::empty_slot()));
    assert_eq!(store.particle(0), None);
}

#[test]
fn store_without_slots_takes_nothing() {
    let mut store = ParticleStore::new(0);
    assert_eq!(store.emit(5, 10), 0);
    store.update(1);
    assert_eq!(store.compact(), 0);
    assert_eq!(store.alive_count(), 0);
    assert_eq!(store.current_buffer().len(), 0);
}

#[test]
fn emit_appends_behind_the_particles_held() {
    let mut store = ParticleStore::new(5);
    assert_eq!(store.emit(2, 10), 2);
    assert_eq!(store.emit(1, 20), 1);
    assert_eq!(store.alive_count(), 3);
    assert_eq!(store.free_slots(), 2);
    assert_eq!(store.current_role(), 0);
    assert_eq!(
        held(&store),
        vec![
            Particle { lifetime: 10, age: 0 },
            Particle { lifetime: 10, age: 0 },
            Particle { lifetime: 20, age: 0 },
        ]
    );
    assert_eq!(store.particle(3), None);
    assert_eq!(store.current_buffer()[3], Particle::empty_slot());
    assert_eq!(store.current_buffer()[4], Particle::empty_slot());
    assert!(store.alternate_buffer().iter().all(|slot| *slot == Particle::empty_slot()));
}

#[test]
fn emit_clamps_to_the_free_slots() {
    let mut store = ParticleStore::new(4);
    assert_eq!(store.emit(3, 10), 3);
    assert_eq!(store.emit(3, 20), 1);
    assert_eq!(store.emit(3, 30), 0);
    assert_eq!(store.emit(0, 30), 0);
    assert_eq!(store.alive_count(), 4);
    assert_eq!(store.free_slots(), 0);
    assert_eq!(store.current_buffer().len(), 4);
    assert_eq!(held(&store)[3], Particle { lifetime: 20, age: 0 });
}

#[test]
fn update_ages_every_slot_into_the_other_buffer() {
    let mut store = ParticleStore::new(4);
    store.emit(2, 10);
    store.update(3);
    assert_eq!(store.current_role(), 1);
    assert_eq!(store.alive_count(), 2);
    assert_eq!(
        store.current_buffer().clone(),
        vec![
            Particle { lifetime: 10, age: 3 },
            Particle { lifetime: 10, age: 3 },
            Particle { lifetime: 0, age: 3 },
            Particle { lifetime: 0, age: 3 },
        ]
    );
    // The buffer that was read is as it was.
    assert_eq!(store.alternate_buffer()[0], Particle { lifetime: 10, age: 0 });
    assert_eq!(store.alternate_buffer()[2], Particle::empty_slot());
    store.update(4);
    assert_eq!(store.current_role(), 0);
    assert_eq!(held(&store), vec![Particle { lifetime: 10, age: 7 }; 2]);
}

#[test]
fn compact_packs_the_alive_particles_in_order() {
    let mut store = ParticleStore::new(6);
    store.emit(1, 5);
    store.emit(1, 50);
    store.emit(2, 5);
    store.emit(1, 60);
    store.emit(1, 8);
    store.update(8);
    store.update(0);
    assert_eq!(store.current_role(), 0);
    let before = store.current_buffer().clone();
    assert_eq!(store.compact(), 2);
    assert_eq!(store.current_role(), 1);
    assert_eq!(store.alive_count(), 2);
    assert_eq!(
        held(&store),
        vec![Particle { lifetime: 50, age: 8 }, Particle { lifetime: 60, age: 8 }]
    );
    assert_eq!(store.alternate_buffer().clone(), before);
    assert_eq!(store.particle(2), None);
}

#[test]
fn compact_keeps_each_alive_particle_as_often_as_it_was_held() {
    let mut store = ParticleStore::new(16);
    for lifetime in [3u64, 9, 3, 7, 9, 9, 1, 12, 3, 7] {
        store.emit(1, lifetime);
    }
    store.update(7);
    let before = store.current_buffer().clone();
    store.compact();
    let after = held(&store);
    for lifetime in 0..16u64 {
        let particle = Particle { lifetime, age: 7 };
        let was = before.iter().filter(|held| **held == particle).count();
        let is = after.iter().filter(|held| **held == particle).count();
        assert_eq!(is, if particle.alive() { was } else { 0 });
    }
    assert_eq!(after.len(), 4);
    assert!(after.iter().all(|particle| particle.alive()));
}

#[test]
fn compact_of_alive_particles_changes_only_the_role() {
    let mut store = ParticleStore::new(3);
    store.emit(3, 100);
    store.update(1);
    let before = held(&store);
    assert_eq!(store.compact(), 3);
    assert_eq!(held(&store), before);
    assert_eq!(store.current_role(), 0);
}

#[test]
fn compact_tests_every_slot_whatever_the_count() {
    let mut store = ParticleStore::new(1);
    store.emit(1, 10);
    store.reset();
    assert_eq!(store.alive_count(), 0);
    store.update(1);
    assert_eq!(store.compact(), 1);
    assert_eq!(held(&store), vec![Particle { lifetime: 10, age: 1 }]);
}

#[test]
fn compact_of_four_slots_keeps_the_two_alive() {
    let second = 1_000_000_000;
    let mut store = ParticleStore::new(4);
    spawn_at(&mut store, 2, second);
    age(&mut store, second);
    spawn_at(&mut store, 1, second);
    age(&mut store, second / 2);
    spawn_at(&mut store, 0, second);
    age(&mut store, second / 2);
    spawn_at(&mut store, 3, second);
    let source = store.current_buffer().clone();
    assert_eq!(
        source,
        vec![
            Particle { lifetime: second, age: second / 2 },
            Particle { lifetime: second, age: second },
            Particle { lifetime: second, age: 2 * second },
            Particle { lifetime: second, age: 0 },
        ]
    );
    assert_eq!(store.alive_count(), 4);
    let role = store.current_role();

    assert_eq!(store.compact(), 2);
    assert_eq!(held(&store), vec![source[0], source[3]]);
    assert_eq!(store.alternate_buffer().clone(), source);

    // The same buffer with the count at zero compacts to the same.
    store.reset();
    if role == 1 {
        store.swap_role();
    }
    assert_eq!(store.current_buffer().clone(), source);
    assert_eq!(store.alive_count(), 0);
    assert_eq!(store.compact(), 2);
    assert_eq!(held(&store), vec![source[0], source[3]]);
}

#[test]
fn compact_counts_alive_records_behind_the_count() {
    let mut store = ParticleStore::new(4);
    store.emit(1, 5);
    store.emit(3, 100);
    store.update(5);
    assert_eq!(store.compact(), 3);
    assert_eq!(held(&store), vec![Particle { lifetime: 100, age: 5 }; 3]);
    // The fourth slot of the buffer that was written keeps what it held: an alive record.
    assert_eq!(store.current_buffer()[3], Particle { lifetime: 100, age: 0 });
    store.update(0);
    assert_eq!(store.alive_count(), 3);
    assert_eq!(store.compact(), 4);
    assert_eq!(
        held(&store),
        vec![
            Particle { lifetime: 100, age: 5 },
            Particle { lifetime: 100, age: 5 },
            Particle { lifetime: 100, age: 5 },
            Particle { lifetime: 100, age: 0 },
        ]
    );
}

#[test]
fn compact_leaves_the_rest_of_the_target_as_it_was() {
    let mut store = ParticleStore::new(3);
    store.emit(3, 10);
    store.update(4);
    store.update(6);
    // Current: three dead records. Alternate: the same three at age 4, alive.
    let alternate = store.alternate_buffer().clone();
    assert_eq!(alternate, vec![Particle { lifetime: 10, age: 4 }; 3]);
    assert_eq!(store.compact(), 0);
    assert_eq!(store.current_buffer().clone(), alternate);
    assert_eq!(store.particle(0), None);
}

#[test]
fn emit_after_compact_overwrites_leftovers() {
    let mut store = ParticleStore::new(3);
    store.emit(3, 10);
    store.update(10);
    assert_eq!(store.compact(), 0);
    store.update(0);
    assert_eq!(store.emit(2, 7), 2);
    assert_eq!(held(&store), vec![Particle { lifetime: 7, age: 0 }; 2]);
    assert_eq!(store.current_buffer()[2], Particle { lifetime: 10, age: 0 });
}

#[test]
fn swap_role_exchanges_the_buffers_and_copies_nothing() {
    let mut store = ParticleStore::new(2);
    store.emit(2, 9);
    let first = store.current_buffer().clone();
    let second = store.alternate_buffer().clone();
    store.swap_role();
    assert_eq!(store.current_role(), 1);
    assert_eq!(store.alive_count(), 2);
    assert_eq!(store.current_buffer().clone(), second);
    assert_eq!(store.alternate_buffer().clone(), first);
    store.swap_role();
    assert_eq!(store.current_role(), 0);
    assert_eq!(store.current_buffer().clone(), first);
}

#[test]
fn reset_zeroes_count_and_role_and_writes_no_slot() {
    let mut store = ParticleStore::new(3);
    store.emit(2, 9);
    store.update(1);
    let current = store.current_buffer().clone();
    let alternate = store.alternate_buffer().clone();
    assert_eq!(store.current_role(), 1);
    store.reset();
    assert_eq!(store.alive_count(), 0);
    assert_eq!(store.current_role(), 0);
    assert_eq!(store.max_particles(), 3);
    assert_eq!(store.particle(0), None);
    assert_eq!(store.current_buffer().clone(), alternate);
    assert_eq!(store.alternate_buffer().clone(), current);
    // The records are still alive, and the next compaction finds them.
    assert_eq!(store.compact(), 2);
    assert_eq!(held(&store), vec![Particle { lifetime: 9, age: 0 }; 2]);
}
