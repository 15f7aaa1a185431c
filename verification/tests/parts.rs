use particle_engine::emitter::Emitter;
use particle_engine::exporter::{colors, positions, sizes};
use particle_engine::integrator::update;
use particle_engine::particle::{Particle, Rgba, GREEN};
use particle_engine::scalar::{add_clamped, fraction_of, scale, sub_clamped, ONE};
use particle_engine::store::ParticleStore;

fn particle(tag: i64, life: u64, max_life: u64) -> Particle {
    Particle { x: tag, y: 0, z: 0, vx: 0, vy: 0, vz: 0, life, max_life, size: 1000 }
}

fn contents(store: &ParticleStore) -> Vec<Particle> {
    (0..store.count()).map(|i| store.get(i)).collect()
}

#[test]
fn clamped_sums_hold_at_the_ends() {
    assert_eq!(add_clamped(2, 3), 5);
    assert_eq!(add_clamped(-2, -3), -5);
    assert_eq!(add_clamped(i64::MAX, 1), i64::MAX);
    assert_eq!(add_clamped(i64::MAX, i64::MAX), i64::MAX);
    assert_eq!(add_clamped(i64::MIN, -1), i64::MIN);
    assert_eq!(add_clamped(i64::MIN, i64::MAX), -1);
    assert_eq!(sub_clamped(2, 3), -1);
    assert_eq!(sub_clamped(i64::MIN, 1), i64::MIN);
    assert_eq!(sub_clamped(i64::MAX, -1), i64::MAX);
    assert_eq!(sub_clamped(0, i64::MIN), i64::MAX);
    assert_eq!(sub_clamped(-1, i64::MIN), i64::MAX);
}

#[test]
fn fractions_round_down() {
    assert_eq!(fraction_of(0, 1), 0);
    assert_eq!(fraction_of(1, 2), 500_000);
    assert_eq!(fraction_of(1, 3), 333_333);
    assert_eq!(fraction_of(2, 3), 666_666);
    assert_eq!(fraction_of(u64::MAX - 1, u64::MAX), 999_999);
    assert_eq!(fraction_of(999_999, 1_000_000), 999_999);
}

#[test]
fn scaling_rounds_down_and_never_enlarges() {
    assert_eq!(scale(200_000, ONE), 200_000);
    assert_eq!(scale(200_000, 0), 0);
    assert_eq!(scale(200_000, 750_000), 150_000);
    assert_eq!(scale(3, 500_000), 1);
    assert_eq!(scale(u64::MAX, ONE), u64::MAX);
    assert_eq!(scale(u64::MAX, ONE - 1), 18_446_725_626_965_477_905);
}

#[test]
fn a_particle_advances_by_its_old_velocity() {
    let p = Particle {
        x: 10,
        y: 20,
        z: 30,
        vx: 1,
        vy: 2,
        vz: 3,
        life: 5,
        max_life: 100,
        size: 9,
    };
    let q = p.advance(4, 7);
    assert_eq!(
        q,
        Particle { x: 11, y: 22, z: 33, vx: 1, vy: -2, vz: 3, life: 12, max_life: 100, size: 9 }
    );
    assert!(!q.is_expired());
    assert!(p.advance(4, 95).is_expired());
    assert!(!p.advance(4, 94).is_expired());
    assert_eq!(p.advance(0, u64::MAX).life, u64::MAX);
}

#[test]
fn what_is_shown_of_a_particle() {
    let p = Particle {
        x: 0,
        y: 0,
        z: 0,
        vx: 0,
        vy: 0,
        vz: 0,
        life: 1_000_000,
        max_life: 4_000_000,
        size: 200_000,
    };
    assert_eq!(p.life_progress(), 250_000);
    assert_eq!(p.display_size(), 150_000);
    assert_eq!(
        p.display_color(),
        Rgba { red: 750_000, green: GREEN, blue: 250_000, alpha: 750_000 }
    );
    assert_eq!(GREEN, 300_000);
}

#[test]
fn the_store_refuses_what_does_not_fit() {
    let mut store = ParticleStore::new(2);
    assert_eq!(store.capacity(), 2);
    assert_eq!(store.count(), 0);
    assert!(store.try_append(particle(1, 0, 10)));
    assert!(store.try_append(particle(2, 0, 10)));
    assert!(!store.try_append(particle(3, 0, 10)));
    assert_eq!(store.count(), 2);
    assert_eq!(store.capacity(), 2);
    assert_eq!(contents(&store), vec![particle(1, 0, 10), particle(2, 0, 10)]);
}

#[test]
fn a_store_without_capacity_refuses_everything() {
    let mut store = ParticleStore::new(0);
    assert!(!store.try_append(particle(1, 0, 10)));
    assert_eq!(store.count(), 0);
}

#[test]
fn removal_moves_the_last_particle_into_the_slot() {
    let mut store = ParticleStore::new(4);
    for tag in 1..=4 {
        assert!(store.try_append(particle(tag, 0, 10)));
    }
    store.remove_at(1);
    assert_eq!(contents(&store), vec![particle(1, 0, 10), particle(4, 0, 10), particle(3, 0, 10)]);
    store.remove_at(2);
    assert_eq!(contents(&store), vec![particle(1, 0, 10), particle(4, 0, 10)]);
    store.remove_at(0);
    assert_eq!(contents(&store), vec![particle(4, 0, 10)]);
    store.remove_at(0);
    assert_eq!(store.count(), 0);
    assert_eq!(store.capacity(), 4);
    assert!(store.try_append(particle(9, 0, 10)));
}

#[test]
fn replace_changes_one_slot() {
    let mut store = ParticleStore::new(3);
    for tag in 1..=3 {
        assert!(store.try_append(particle(tag, 0, 10)));
    }
    store.replace(1, particle(7, 1, 10));
    assert_eq!(contents(&store), vec![particle(1, 0, 10), particle(7, 1, 10), particle(3, 0, 10)]);
}

#[test]
fn survivors_age_by_exactly_the_tick() {
    let mut store = ParticleStore::new(6);
    let lives = [(0u64, 100u64), (40, 100), (49, 100), (50, 100), (99, 100), (10, 61)];
    for (tag, (life, max_life)) in lives.iter().enumerate() {
        assert!(store.try_append(particle(tag as i64, *life, *max_life)));
    }
    update(&mut store, 0, 50);
    let after = contents(&store);
    assert_eq!(after.len(), 4);
    for p in &after {
        let (life, max_life) = lives[p.x as usize];
        assert_eq!(p.life, life + 50);
        assert_eq!(p.max_life, max_life);
        assert!(p.life < p.max_life);
    }
    let mut tags: Vec<i64> = after.iter().map(|p| p.x).collect();
    tags.sort();
    assert_eq!(tags, vec![0, 1, 2, 5]);
}

#[test]
fn no_expired_particle_is_left_after_a_tick() {
    let mut store = ParticleStore::new(64);
    for tag in 0..64u64 {
        assert!(store.try_append(particle(tag as i64, tag % 7, 1 + tag % 11)));
    }
    for _ in 0..12 {
        update(&mut store, 3, 1);
        for p in contents(&store) {
            assert!(p.life < p.max_life);
        }
    }
    assert_eq!(store.count(), 0);
}

#[test]
fn the_scan_goes_on_in_the_slot_it_has_filled() {
    // dead, alive, dead: the last is moved to the front and found dead there,
    // then the middle one is moved to the front
    let mut store = ParticleStore::new(3);
    assert!(store.try_append(particle(1, 9, 10)));
    assert!(store.try_append(particle(2, 0, 10)));
    assert!(store.try_append(particle(3, 9, 10)));
    update(&mut store, 0, 1);
    assert_eq!(contents(&store), vec![particle(2, 1, 10)]);
}

#[test]
fn the_order_after_a_tick_is_that_of_the_forward_scan() {
    let mut store = ParticleStore::new(8);
    let dead = [true, false, true, true, false, false, true, false];
    for (tag, d) in dead.iter().enumerate() {
        assert!(store.try_append(particle(tag as i64, if *d { 9 } else { 0 }, 10)));
    }
    update(&mut store, 0, 1);
    let tags: Vec<i64> = contents(&store).iter().map(|p| p.x).collect();
    assert_eq!(tags, vec![7, 1, 5, 4]);
}

#[test]
fn the_buffers_of_a_store() {
    let mut store = ParticleStore::new(2);
    assert!(store.try_append(Particle {
        x: 1,
        y: 2,
        z: 3,
        vx: 0,
        vy: 0,
        vz: 0,
        life: 1,
        max_life: 2,
        size: 10,
    }));
    assert!(store.try_append(Particle {
        x: -4,
        y: -5,
        z: -6,
        vx: 0,
        vy: 0,
        vz: 0,
        life: 3,
        max_life: 4,
        size: 100,
    }));
    assert_eq!(positions(&store), vec![1, 2, 3, -4, -5, -6]);
    assert_eq!(sizes(&store), vec![5, 25]);
    assert_eq!(
        colors(&store),
        vec![500_000, 300_000, 500_000, 500_000, 250_000, 300_000, 750_000, 250_000]
    );
}

#[test]
fn an_emitter_fills_a_store_up_to_its_capacity() {
    let mut emitter = Emitter::new(5, 6, 7);
    let mut store = ParticleStore::new(3);
    assert!(store.try_append(particle(1, 3, 10)));
    emitter.emit(&mut store, 10);
    assert_eq!(store.count(), 3);
    let all = contents(&store);
    assert_eq!(all[0], particle(1, 3, 10));
    for p in &all[1..] {
        assert_eq!((p.x, p.y, p.z), (5, 6, 7));
        assert_eq!(p.life, 0);
        assert!(-500_000 <= p.vx && p.vx <= 500_000);
        assert!(200_000 <= p.vy && p.vy <= 700_000);
        assert!(-500_000 <= p.vz && p.vz <= 500_000);
        assert!(2 * ONE <= p.max_life && p.max_life <= 4 * ONE);
        assert!(50_000 <= p.size && p.size <= 350_000);
    }
    emitter.set_position(0, 0, 0);
    assert_eq!(contents(&store), all);
}

#[test]
fn an_emitter_spawns_what_it_is_told() {
    let emitter = Emitter::new(5, 6, 7);
    let mut store = ParticleStore::new(1);
    assert!(emitter.spawn(&mut store, 1, 2, 3, 40, 50));
    assert!(!emitter.spawn(&mut store, 1, 2, 3, 40, 50));
    assert_eq!(
        contents(&store),
        vec![Particle { x: 5, y: 6, z: 7, vx: 1, vy: 2, vz: 3, life: 0, max_life: 40, size: 50 }]
    );
}

#[test]
fn drawn_values_vary_over_their_whole_range() {
    let mut emitter = Emitter::new(0, 0, 0);
    let mut store = ParticleStore::new(2000);
    emitter.emit(&mut store, 2000);
    let all = contents(&store);
    let low = all.iter().filter(|p| p.vx < -250_000).count();
    let high = all.iter().filter(|p| p.vx > 250_000).count();
    assert!(low > 300 && high > 300);
    assert!(all.iter().any(|p| p.max_life < 2_500_000));
    assert!(all.iter().any(|p| p.max_life > 3_500_000));
    assert!(all.iter().any(|p| p.size < 100_000));
    assert!(all.iter().any(|p| p.size > 300_000));
    assert!(all.iter().any(|p| p.vy < 300_000));
    assert!(all.iter().any(|p| p.vy > 600_000));
    assert!(all.iter().any(|p| p.vx != p.vz));
}
