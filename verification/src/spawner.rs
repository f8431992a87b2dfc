//! Population counters and the batch entity spawner.
//!
//! A spawn trigger appends exactly `BATCH_SIZE` procedurally placed
//! entities to the store and advances the counters; a batch that would
//! push the population past the configured cap is rejected whole, with
//! the counters untouched.

use vstd::prelude::*;

use crate::config;
use crate::entity::{EntityRecord, EntityStore};
use crate::text_out;

verus! {

/// Population bookkeeping: number of spawn batches so far, the running
/// entity total (seeded at 1 for the reference entity that exists before
/// any batch), and the timestamp of the last periodic console report.
#[derive(Clone, Copy, PartialEq, Eq, Structural, Debug)]
pub struct SimulationStats {
    /// Number of successful spawn batches.
    pub batch_count: u32,
    /// Running total of all entities ever spawned, including the one
    /// reference entity.
    pub total_entities: u32,
    /// Timestamp (milliseconds since start) of the last periodic report.
    pub last_report_ms: u64,
}

impl SimulationStats {
    /// The growth invariant: the total is exactly one reference entity
    /// plus a full batch for every successful spawn.
    pub open spec fn wf(self) -> bool {
        self.total_entities == 1 + self.batch_count * config::BATCH_SIZE
    }

    /// Counters as they stand before any batch.
    pub fn initial() -> (s: SimulationStats)
        ensures
            s == spec_initial_stats(),
            s.wf(),
    {
        SimulationStats { batch_count: 0, total_entities: 1, last_report_ms: 0 }
    }
}

/// Counters as they stand before any batch.
pub open spec fn spec_initial_stats() -> SimulationStats {
    SimulationStats { batch_count: 0, total_entities: 1, last_report_ms: 0 }
}

/// Whether another full batch still fits under the population cap.
pub open spec fn spec_can_spawn(s: SimulationStats) -> bool {
    s.total_entities + config::BATCH_SIZE <= config::MAX_TOTAL_ENTITIES
}

/// The counters after one successful batch.
pub open spec fn spec_spawn_stats(s: SimulationStats) -> SimulationStats {
    SimulationStats {
        batch_count: (s.batch_count + 1) as u32,
        total_entities: (s.total_entities + config::BATCH_SIZE) as u32,
        ..s
    }
}

/// The counter transition of one frame's spawn phase: the batch happens
/// exactly when the trigger fired and a full batch still fits.
pub open spec fn spec_stats_step(s: SimulationStats, triggered: bool) -> SimulationStats {
    if triggered && spec_can_spawn(s) {
        spec_spawn_stats(s)
    } else {
        s
    }
}

/// The counters after a whole run of frames, one trigger per frame,
/// starting from the initial state.
pub open spec fn spec_stats_run(triggers: Seq<bool>) -> SimulationStats
    decreases triggers.len(),
{
    if triggers.len() == 0 {
        spec_initial_stats()
    } else {
        spec_stats_step(spec_stats_run(triggers.drop_last()), triggers.last())
    }
}

/// Number of successful batches in a run of frames.
pub open spec fn spec_successful_batches(triggers: Seq<bool>) -> int
    decreases triggers.len(),
{
    if triggers.len() == 0 {
        0
    } else {
        spec_successful_batches(triggers.drop_last()) + (if triggers.last() && spec_can_spawn(
            spec_stats_run(triggers.drop_last()),
        ) {
            1int
        } else {
            0int
        })
    }
}

/// Growth invariant law: for every sequence of spawn triggers, after
/// `b` successful batches the counters read `batch_count == b` and
/// `total_entities == 1 + b * BATCH_SIZE`.
pub proof fn lemma_growth_invariant(triggers: Seq<bool>)
    ensures
        spec_stats_run(triggers).batch_count == spec_successful_batches(triggers),
        spec_stats_run(triggers).total_entities == 1 + spec_successful_batches(triggers)
            * config::BATCH_SIZE,
        spec_stats_run(triggers).wf(),
    decreases triggers.len(),
{
    if triggers.len() > 0 {
        lemma_growth_invariant(triggers.drop_last());
        let prev = spec_stats_run(triggers.drop_last());
        let b = spec_successful_batches(triggers.drop_last());
        if triggers.last() && spec_can_spawn(prev) {
            assert((b + 1) * config::BATCH_SIZE == b * config::BATCH_SIZE + config::BATCH_SIZE)
                by (nonlinear_arith);
        }
    }
}

/// Rotation speed assigned to every entity of batch `b`:
/// `clamp(1.0 - b * SPEED_DECAY, MIN_SPEED, MAX_SPEED)` in milli-units.
/// It depends on the batch number alone, never on the entity index, so
/// later batches rotate more slowly.
pub open spec fn spec_speed_for_batch(b: int) -> int {
    let raw = config::MAX_SPEED_MILLI - b * config::SPEED_DECAY_MILLI;
    if raw < config::MIN_SPEED_MILLI {
        config::MIN_SPEED_MILLI as int
    } else if raw > config::MAX_SPEED_MILLI {
        config::MAX_SPEED_MILLI as int
    } else {
        raw
    }
}

/// Rotation speed for batch `b`.
pub fn speed_for_batch(b: u32) -> (r: u32)
    ensures
        r == spec_speed_for_batch(b as int),
        config::MIN_SPEED_MILLI <= r <= config::MAX_SPEED_MILLI,
{
    let bw: u64 = b as u64;
    proof {
        assert(bw * (config::SPEED_DECAY_MILLI as u64) <= 4294967295u64 * 30) by (nonlinear_arith)
            requires
                bw <= 4294967295u64,
        ;
    }
    let decay: u64 = bw * (config::SPEED_DECAY_MILLI as u64);
    if decay >= (config::MAX_SPEED_MILLI - config::MIN_SPEED_MILLI) as u64 {
        config::MIN_SPEED_MILLI
    } else {
        config::MAX_SPEED_MILLI - (decay as u32)
    }
}

/// Later batches never rotate faster: the assigned speed is
/// non-increasing in the batch number, and strictly lower until the
/// lower clamp is reached.
pub proof fn lemma_speed_monotone(b1: int, b2: int)
    requires
        0 <= b1 <= b2,
    ensures
        spec_speed_for_batch(b2) <= spec_speed_for_batch(b1),
        spec_speed_for_batch(b1) > config::MIN_SPEED_MILLI && b1 < b2
            ==> spec_speed_for_batch(b2) < spec_speed_for_batch(b1),
{
    assert(b1 * config::SPEED_DECAY_MILLI <= b2 * config::SPEED_DECAY_MILLI) by (nonlinear_arith)
        requires
            0 <= b1 <= b2,
    ;
    if b1 < b2 {
        assert(b1 * config::SPEED_DECAY_MILLI + config::SPEED_DECAY_MILLI <= b2
            * config::SPEED_DECAY_MILLI) by (nonlinear_arith)
            requires
                0 <= b1 < b2,
        ;
    }
}

/// Placement angle of the i-th entity of a batch, milliradians.
pub open spec fn spec_place_angle(i: int) -> int {
    i * config::ANGLE_STEP_MILLI
}

/// Placement radius of the i-th entity of batch `b`: later batches start
/// further out, and entities drift finely outwards along the spiral.
pub open spec fn spec_place_radius(b: int, i: int) -> int {
    config::BASE_RADIUS_MILLI + b * config::RADIUS_GROWTH_MILLI + i * config::RADIUS_FINE_MILLI
}

/// Placement height of the i-th entity of batch `b`: a repeating ramp
/// within the batch, shifted upward for later batches.
pub open spec fn spec_place_height(b: int, i: int) -> int {
    (i % (config::HEIGHT_PERIOD as int)) * config::HEIGHT_SCALE_MILLI + b
        * config::HEIGHT_GROWTH_MILLI - config::HEIGHT_OFFSET_MILLI
}

/// The i-th entity of batch `b`: placed on the batch's spiral, unrotated,
/// at unit scale, with the batch's common rotation speed.
pub open spec fn spec_make_entity(b: int, i: int) -> EntityRecord {
    EntityRecord {
        angle_milli: spec_place_angle(i) as u64,
        radius_milli: spec_place_radius(b, i) as u64,
        height_milli: spec_place_height(b, i) as i64,
        scale_milli: 1000,
        rot_x: 0,
        rot_y: 0,
        rot_z: 0,
        rotation_speed_milli: spec_speed_for_batch(b) as u32,
    }
}

/// All `BATCH_SIZE` entities of batch `b`, in spawn order.
pub open spec fn spec_batch_entities(b: int) -> Seq<EntityRecord> {
    Seq::new(config::BATCH_SIZE as nat, |i: int| spec_make_entity(b, i))
}

/// Builds the i-th entity of batch `b`.
pub fn make_entity(b: u32, i: u32) -> (e: EntityRecord)
    requires
        i < config::BATCH_SIZE,
    ensures
        e == spec_make_entity(b as int, i as int),
        e.wf(),
{
    let angle: u64 = (i as u64) * config::ANGLE_STEP_MILLI;
    proof {
        assert((b as u64) * config::RADIUS_GROWTH_MILLI <= 4294967295u64 * 12000
            && (b as u64) * config::HEIGHT_GROWTH_MILLI <= 4294967295u64 * 6000) by (
        nonlinear_arith)
            requires
                b <= 4294967295u64,
        ;
    }
    let radius: u64 = config::BASE_RADIUS_MILLI + (b as u64) * config::RADIUS_GROWTH_MILLI + (
    i as u64) * config::RADIUS_FINE_MILLI;
    let height: i64 = (((i as u64) % config::HEIGHT_PERIOD) * config::HEIGHT_SCALE_MILLI) as i64
        + ((b as u64) * config::HEIGHT_GROWTH_MILLI) as i64 - config::HEIGHT_OFFSET_MILLI as i64;
    EntityRecord {
        angle_milli: angle,
        radius_milli: radius,
        height_milli: height,
        scale_milli: 1000,
        rot_x: 0,
        rot_y: 0,
        rot_z: 0,
        rotation_speed_milli: speed_for_batch(b),
    }
}

/// Why a spawn trigger produced no batch.
#[derive(Clone, Copy, PartialEq, Eq, Structural, Debug)]
pub enum SpawnError {
    /// A full batch no longer fits under the population cap; the store
    /// and the counters are unchanged.
    CapacityExceeded,
}

/// One spawn trigger: if a full batch fits under the population cap,
/// appends exactly `BATCH_SIZE` new entities to the store, advances the
/// counters, and returns the log line for the batch; otherwise rejects
/// the batch whole and changes nothing.
pub fn spawn_batch(store: &mut EntityStore, stats: &mut SimulationStats) -> (r: Result<
    String,
    SpawnError,
>)
    requires
        old(store).wf(),
        old(stats).wf(),
    ensures
        final(store).wf(),
        final(stats).wf(),
        r is Ok <==> spec_can_spawn(*old(stats)),
        r is Ok ==> {
            &&& *final(stats) == spec_spawn_stats(*old(stats))
            &&& final(store)@ == old(store)@ + spec_batch_entities(final(stats).batch_count as int)
            &&& r->Ok_0@ == text_out::spec_batch_log(
                final(stats).batch_count as int,
                final(stats).total_entities as int,
            )
        },
        r is Err ==> {
            &&& *final(stats) == *old(stats)
            &&& final(store)@ == old(store)@
            &&& r->Err_0 == SpawnError::CapacityExceeded
        },
{
    if stats.total_entities > config::MAX_TOTAL_ENTITIES - config::BATCH_SIZE {
        return Err(SpawnError::CapacityExceeded);
    }
    let new_batch = stats.batch_count + 1;
    stats.batch_count = new_batch;
    stats.total_entities = stats.total_entities + config::BATCH_SIZE;

    let mut i: u32 = 0;
    while i < config::BATCH_SIZE
        invariant
            i <= config::BATCH_SIZE,
            store.wf(),
            store@ == old(store)@ + spec_batch_entities(new_batch as int).take(i as int),
        decreases config::BATCH_SIZE - i,
    {
        let e = make_entity(new_batch, i);
        store.append(e);
        proof {
            assert(store@ =~= old(store)@ + spec_batch_entities(new_batch as int).take(
                i as int + 1,
            ));
        }
        i = i + 1;
    }
    proof {
        assert(store@ =~= old(store)@ + spec_batch_entities(new_batch as int));
    }
    Ok(text_out::batch_log(new_batch as u64, stats.total_entities as u64))
}

} // verus!
