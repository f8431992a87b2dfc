use stress_sim::config;
use stress_sim::entity::{step_entity, EntityStore};
use stress_sim::sim::{FrameInput, Simulation};
use stress_sim::spawner::{spawn_batch, speed_for_batch, SimulationStats, SpawnError};

#[test]
fn growth_invariant_over_trigger_sequence() {
    let mut sim = Simulation::new();
    assert_eq!(sim.stats.total_entities, 1);
    assert_eq!(sim.stats.batch_count, 0);

    let triggers = [false, true, false, true, true, false];
    let mut successes: u32 = 0;
    let mut now: u64 = 0;
    for &t in triggers.iter() {
        now += 16;
        sim.frame(FrameInput { spawn_trigger: t, dt_ms: 16, now_ms: now });
        if t {
            successes += 1;
        }
        assert_eq!(sim.stats.batch_count, successes);
        assert_eq!(
            sim.stats.total_entities,
            1 + successes * config::BATCH_SIZE
        );
        assert_eq!(sim.store.recs.len() as u32, sim.stats.total_entities);
    }
}

#[test]
fn scenario_one_spawn_trigger() {
    let mut sim = Simulation::new();
    assert_eq!(sim.stats.total_entities, 1);
    let out = sim.frame(FrameInput {
        spawn_trigger: true,
        dt_ms: 16,
        now_ms: 16,
    });
    assert_eq!(sim.stats.total_entities, 10_001);
    assert_eq!(sim.stats.batch_count, 1);
    assert_eq!(
        out.spawn_log,
        Some(String::from("Batch 1: Total Entities 10001"))
    );
    assert!(!out.spawn_rejected);
}

#[test]
fn spawned_entities_updated_same_frame() {
    // Ordering within a frame is fixed: entities spawned this frame
    // exist before the updater runs, so they get this frame's rotation.
    let mut sim = Simulation::new();
    sim.frame(FrameInput {
        spawn_trigger: true,
        dt_ms: 1000,
        now_ms: 1000,
    });
    let newcomer = sim.store.recs[1];
    assert_ne!(newcomer.rot_y, 0);
}

#[test]
fn update_order_independent() {
    // The same population updated front-to-back by the store pass and
    // back-to-front by hand ends in identical rotations.
    let mut a = Simulation::new();
    let mut b = Simulation::new();
    a.frame(FrameInput {
        spawn_trigger: true,
        dt_ms: 16,
        now_ms: 16,
    });
    b.frame(FrameInput {
        spawn_trigger: true,
        dt_ms: 16,
        now_ms: 16,
    });
    assert_eq!(a.store.recs, b.store.recs);

    a.store.update_all(7);
    for i in (0..b.store.recs.len()).rev() {
        let stepped = step_entity(&b.store.recs[i], 7);
        b.store.recs[i] = stepped;
    }
    assert_eq!(a.store.recs, b.store.recs);
}

#[test]
fn zero_dt_frame_is_noop_for_rotation() {
    let mut sim = Simulation::new();
    sim.frame(FrameInput {
        spawn_trigger: true,
        dt_ms: 16,
        now_ms: 16,
    });
    let before = sim.store.recs.clone();
    sim.frame(FrameInput {
        spawn_trigger: false,
        dt_ms: 0,
        now_ms: 32,
    });
    assert_eq!(before, sim.store.recs);
}

#[test]
fn batch_two_rotates_slower_than_batch_one() {
    // Two spawns with no intervening frame: the second batch's speed
    // reflects batch_count = 2 at assignment time and is lower.
    let mut store = EntityStore::empty();
    let mut stats = SimulationStats::initial();
    spawn_batch(&mut store, &mut stats).unwrap();
    spawn_batch(&mut store, &mut stats).unwrap();
    assert_eq!(stats.batch_count, 2);
    let batch1_speed = store.recs[0].rotation_speed_milli;
    let batch2_speed = store.recs[config::BATCH_SIZE as usize].rotation_speed_milli;
    assert_eq!(batch1_speed, speed_for_batch(1));
    assert_eq!(batch2_speed, speed_for_batch(2));
    assert!(batch2_speed < batch1_speed);
}

#[test]
fn speed_clamps_at_minimum() {
    assert_eq!(speed_for_batch(0), config::MAX_SPEED_MILLI);
    assert_eq!(speed_for_batch(1), 970);
    assert_eq!(speed_for_batch(30), config::MIN_SPEED_MILLI);
    assert_eq!(speed_for_batch(1_000), config::MIN_SPEED_MILLI);
}

#[test]
fn speed_is_uniform_within_a_batch() {
    let mut store = EntityStore::empty();
    let mut stats = SimulationStats::initial();
    spawn_batch(&mut store, &mut stats).unwrap();
    let first = store.recs[0].rotation_speed_milli;
    assert!(store
        .recs
        .iter()
        .all(|e| e.rotation_speed_milli == first));
}

#[test]
fn later_batches_spread_further_out_and_higher() {
    let mut store = EntityStore::empty();
    let mut stats = SimulationStats::initial();
    spawn_batch(&mut store, &mut stats).unwrap();
    spawn_batch(&mut store, &mut stats).unwrap();
    let b1 = store.recs[0];
    let b2 = store.recs[config::BATCH_SIZE as usize];
    assert!(b2.radius_milli > b1.radius_milli);
    assert!(b2.height_milli > b1.height_milli);
}

#[test]
fn placement_formula_exact() {
    let mut store = EntityStore::empty();
    let mut stats = SimulationStats::initial();
    spawn_batch(&mut store, &mut stats).unwrap();

    // i-th entity of batch b: angle = i * 120, radius = 20000 + b * 12000
    // + i * 15, height = (i mod 32) * 500 + b * 6000 - 8000.
    let e0 = store.recs[0];
    assert_eq!(e0.angle_milli, 0);
    assert_eq!(e0.radius_milli, 32_000);
    assert_eq!(e0.height_milli, -2_000);

    let e1 = store.recs[1];
    assert_eq!(e1.angle_milli, 120);
    assert_eq!(e1.radius_milli, 32_015);
    assert_eq!(e1.height_milli, -1_500);

    // The height ramp repeats with period 32.
    let e33 = store.recs[33];
    assert_eq!(e33.height_milli, e1.height_milli);
}

#[test]
fn rotation_step_exact() {
    // Reference entity: speed 1.0; one second advances each axis by
    // dt * speed * weight angle units (weights 70 / 100 / 30 percent).
    let sim = Simulation::new();
    let stepped = step_entity(&sim.store.recs[0], 1_000);
    assert_eq!(stepped.rot_x, 70_000_000);
    assert_eq!(stepped.rot_y, 100_000_000);
    assert_eq!(stepped.rot_z, 30_000_000);
    // A full turn wraps: 2 * pi radians is 628_318_530 units.
    let mut e = sim.store.recs[0];
    e.rot_y = config::TURN_UNITS - 1;
    let wrapped = step_entity(&e, 1_000);
    assert_eq!(wrapped.rot_y, (100_000_000 - 1) % config::TURN_UNITS);
}

#[test]
fn capacity_exceeded_rejects_batch_whole() {
    let mut store = EntityStore::empty();
    // Largest well-formed counter state: one more batch cannot fit.
    let mut stats = SimulationStats {
        batch_count: 429_496,
        total_entities: 1 + 429_496 * config::BATCH_SIZE,
        last_report_ms: 0,
    };
    let r = spawn_batch(&mut store, &mut stats);
    assert_eq!(r, Err(SpawnError::CapacityExceeded));
    assert_eq!(stats.batch_count, 429_496);
    assert_eq!(stats.total_entities, 1 + 429_496 * config::BATCH_SIZE);
    assert_eq!(store.recs.len(), 0);
}

#[test]
fn entity_display_rewritten_iff_total_changed() {
    let mut sim = Simulation::new();
    // First frame: no spawn, total still 1 as displayed at start.
    let out = sim.frame(FrameInput {
        spawn_trigger: false,
        dt_ms: 16,
        now_ms: 16,
    });
    assert_eq!(out.entity_text, None);
    // Spawn changes the total: the text is rewritten, exactly once.
    let out = sim.frame(FrameInput {
        spawn_trigger: true,
        dt_ms: 16,
        now_ms: 32,
    });
    assert_eq!(out.entity_text, Some(String::from("Entities: 10001")));
    let out = sim.frame(FrameInput {
        spawn_trigger: false,
        dt_ms: 16,
        now_ms: 48,
    });
    assert_eq!(out.entity_text, None);
}
