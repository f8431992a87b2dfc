//! The frame orchestrator: the complete simulation state and the fixed
//! per-frame sequence — spawn on trigger, parallel transform update,
//! camera advance, telemetry update, periodic report, change-gated
//! display sync.

use vstd::prelude::*;

use crate::config;
use crate::entity::{self, EntityRecord, EntityStore};
use crate::spawner::{self, SimulationStats, SpawnError};
use crate::telemetry::{self, FpsWindow};
use crate::text_out;

verus! {

/// The single reference entity that exists before any batch: centered,
/// raised, at double scale, rotating at full speed.
pub open spec fn spec_reference_entity() -> EntityRecord {
    EntityRecord {
        angle_milli: 0,
        radius_milli: 0,
        height_milli: 2000,
        scale_milli: 2000,
        rot_x: 0,
        rot_y: 0,
        rot_z: 0,
        rotation_speed_milli: config::REFERENCE_SPEED_MILLI,
    }
}

/// Orbit camera angle after a frame: the accumulator advances with the
/// frame's elapsed time at `CAMERA_SPEED_MILLI` milli-radians per
/// second, wrapping at a full turn. In angle units (100 per
/// millisecond-milliradian) the increment is `dt * speed * 100`.
pub open spec fn spec_camera_step(angle: int, dt_ms: int) -> int {
    (angle + dt_ms * config::CAMERA_SPEED_MILLI * 100) % (config::TURN_UNITS as int)
}

/// The whole population after the spawn phase of a frame: a full batch
/// is appended exactly when the trigger fired and the batch fits.
pub open spec fn spec_store_after_spawn_phase(
    s: Seq<EntityRecord>,
    stats: SimulationStats,
    trigger: bool,
) -> Seq<EntityRecord> {
    if trigger && spawner::spec_can_spawn(stats) {
        s + spawner::spec_batch_entities(stats.batch_count + 1)
    } else {
        s
    }
}

/// The counters after the spawn phase of a frame: exactly the counter
/// transition the growth-invariant law is stated over.
pub open spec fn spec_stats_after_spawn_phase(
    stats: SimulationStats,
    trigger: bool,
) -> SimulationStats {
    spawner::spec_stats_step(stats, trigger)
}

/// Everything one frame needs from the surrounding runtime: the
/// debounced spawn trigger (one edge per discrete activation), the
/// frame's elapsed time, and the time since start.
#[derive(Clone, Copy, PartialEq, Eq, Structural, Debug)]
pub struct FrameInput {
    /// True exactly when the spawn control was activated this frame.
    pub spawn_trigger: bool,
    /// Elapsed time of the frame, milliseconds; 0 marks a degenerate
    /// frame that must not rotate anything nor feed the FPS average.
    pub dt_ms: u32,
    /// Time since simulation start, milliseconds.
    pub now_ms: u64,
}

/// Everything one frame hands back: each field is `Some` only when the
/// corresponding sink must actually be written this frame.
pub struct FrameOutput {
    /// Log line of a successful spawn batch.
    pub spawn_log: Option<String>,
    /// True when the trigger fired but the batch no longer fit under
    /// the population cap; the reportable, non-fatal condition.
    pub spawn_rejected: bool,
    /// Fresh FPS display text, only on the refresh cadence and only
    /// when the rounded value changed.
    pub fps_text: Option<String>,
    /// Fresh entity-count display text, only when the total changed.
    pub entity_text: Option<String>,
    /// Periodic console report line, on its own cadence.
    pub report: Option<String>,
}

/// The complete simulation state, owned by the frame loop; nothing
/// outside the core mutates it.
pub struct Simulation {
    /// The entity population.
    pub store: EntityStore,
    /// Population counters and report bookkeeping.
    pub stats: SimulationStats,
    /// Rolling FPS telemetry.
    pub fps: FpsWindow,
    /// Orbit camera angle accumulator, angle units below a full turn.
    pub camera_angle: u64,
    /// The entity total as last published to the display.
    pub displayed_total: u32,
}

impl Simulation {
    /// Well-formedness of the whole state; ties the population size to
    /// the reported counters.
    pub open spec fn wf(self) -> bool {
        &&& self.store.wf()
        &&& self.stats.wf()
        &&& self.fps.wf()
        &&& self.camera_angle < config::TURN_UNITS
        &&& self.store@.len() == self.stats.total_entities
    }

    /// The state before the first frame: one reference entity, counters
    /// seeded at 1, empty telemetry, camera at rest.
    pub fn new() -> (sim: Simulation)
        ensures
            sim.wf(),
            sim.store@ == seq![spec_reference_entity()],
            sim.stats == spawner::spec_initial_stats(),
            sim.fps.sample_count == 0,
            sim.fps.rolling_sum == 0,
            sim.fps.window_start_ms == 0,
            sim.fps.last_display_ms == 0,
            sim.fps.last_display_fps is None,
            sim.fps.history@ == Seq::<u64>::empty(),
            sim.camera_angle == 0,
            sim.displayed_total == 1,
    {
        let mut store = EntityStore::empty();
        store.append(
            EntityRecord {
                angle_milli: 0,
                radius_milli: 0,
                height_milli: 2000,
                scale_milli: 2000,
                rot_x: 0,
                rot_y: 0,
                rot_z: 0,
                rotation_speed_milli: config::REFERENCE_SPEED_MILLI,
            },
        );
        proof {
            assert(store@ =~= seq![spec_reference_entity()]);
        }
        Simulation {
            store,
            stats: SimulationStats::initial(),
            fps: FpsWindow::initial(),
            camera_angle: 0,
            displayed_total: 1,
        }
    }

    /// One frame, in the fixed order: (1) spawn if the trigger fired,
    /// (2) transform update over the full store — entities spawned this
    /// frame are updated this frame too, (3) camera advance, (4) FPS
    /// sample (skipped on a degenerate delta) and display refresh,
    /// (5) periodic report, (6) change-gated entity-count display sync.
    pub fn frame(&mut self, input: FrameInput) -> (out: FrameOutput)
        requires
            old(self).wf(),
        ensures
            final(self).wf(),
            // Spawn phase: a batch happens exactly when the trigger
            // fired and the batch fits; its log line is owed then.
            out.spawn_log is Some <==> (input.spawn_trigger && spawner::spec_can_spawn(
                old(self).stats,
            )),
            out.spawn_rejected <==> (input.spawn_trigger && !spawner::spec_can_spawn(
                old(self).stats,
            )),
            final(self).stats.batch_count == spec_stats_after_spawn_phase(
                old(self).stats,
                input.spawn_trigger,
            ).batch_count,
            final(self).stats.total_entities == spec_stats_after_spawn_phase(
                old(self).stats,
                input.spawn_trigger,
            ).total_entities,
            out.spawn_log is Some ==> out.spawn_log->0@ == text_out::spec_batch_log(
                final(self).stats.batch_count as int,
                final(self).stats.total_entities as int,
            ),
            // Update phase: every entity present after the spawn phase
            // gets exactly one frame of rotation, nothing else changes.
            final(self).store@ == entity::spec_step_all(
                spec_store_after_spawn_phase(old(self)@, old(self).stats, input.spawn_trigger),
                input.dt_ms as int,
            ),
            // Camera phase.
            final(self).camera_angle == spec_camera_step(
                old(self).camera_angle as int,
                input.dt_ms as int,
            ),
            // Telemetry phase: a degenerate delta contributes nothing;
            // otherwise the frame's instantaneous FPS lands in the
            // window and the bounded history.
            input.dt_ms == 0 ==> {
                &&& final(self).fps.rolling_sum == old(self).fps.rolling_sum
                &&& final(self).fps.sample_count == old(self).fps.sample_count
                &&& final(self).fps.window_start_ms == old(self).fps.window_start_ms
                &&& final(self).fps.history@ == old(self).fps.history@
            },
            input.dt_ms > 0 ==> {
                &&& final(self).fps.rolling_sum == old(self).fps.spec_record_sum(
                    input.now_ms as int,
                    telemetry::spec_inst_fps(input.dt_ms as int),
                )
                &&& final(self).fps.sample_count == old(self).fps.spec_record_count(
                    input.now_ms as int,
                )
                &&& final(self).fps.window_start_ms == old(self).fps.spec_record_start(
                    input.now_ms as int,
                )
                &&& final(self).fps.history@ == telemetry::spec_record_history(
                    old(self).fps.history@,
                    telemetry::spec_inst_fps(input.dt_ms as int) as u64,
                )
            },
            // Display refresh: published on its cadence, only from a
            // window with samples, only when the rounded value changed.
            final(self).fps.last_display_ms == (if old(self).fps.spec_display_due(
                input.now_ms as int,
            ) {
                input.now_ms as int
            } else {
                old(self).fps.last_display_ms as int
            }),
            out.fps_text is Some <==> (old(self).fps.spec_display_due(input.now_ms as int)
                && final(self).fps.sample_count > 0 && old(self).fps.last_display_fps != Some(
                telemetry::spec_round_milli(final(self).fps.spec_window_avg_milli()) as u64,
            )),
            out.fps_text is Some ==> {
                &&& out.fps_text->0@ == text_out::spec_fps_text(
                    telemetry::spec_round_milli(final(self).fps.spec_window_avg_milli()),
                )
                &&& final(self).fps.last_display_fps == Some(
                    telemetry::spec_round_milli(final(self).fps.spec_window_avg_milli()) as u64,
                )
            },
            out.fps_text is None ==> final(self).fps.last_display_fps == old(
                self,
            ).fps.last_display_fps,
            // Periodic report, on its own cadence.
            out.report is Some <==> input.now_ms - old(self).stats.last_report_ms
                >= config::REPORT_INTERVAL_MS,
            out.report is Some ==> {
                &&& final(self).stats.last_report_ms == input.now_ms
                &&& out.report->0@ == text_out::spec_report_line(
                    telemetry::spec_milli_to_tenths(input.now_ms as int),
                    final(self).stats.total_entities as int,
                    telemetry::spec_milli_to_tenths(final(self).fps.spec_report_avg_milli()),
                )
            },
            out.report is None ==> final(self).stats.last_report_ms == old(
                self,
            ).stats.last_report_ms,
            // Change-gated entity-count display: rewritten if and only
            // if the total differs from the value last published.
            out.entity_text is Some <==> final(self).stats.total_entities != old(
                self,
            ).displayed_total,
            out.entity_text is Some ==> out.entity_text->0@ == text_out::spec_entities_text(
                final(self).stats.total_entities as int,
            ),
            final(self).displayed_total == final(self).stats.total_entities,
    {
        let mut spawn_log: Option<String> = None;
        let mut spawn_rejected = false;
        if input.spawn_trigger {
            match spawner::spawn_batch(&mut self.store, &mut self.stats) {
                Ok(line) => {
                    spawn_log = Some(line);
                },
                Err(SpawnError::CapacityExceeded) => {
                    spawn_rejected = true;
                },
            }
        }

        self.store.update_all(input.dt_ms);

        self.camera_angle = camera_step(self.camera_angle, input.dt_ms);

        if input.dt_ms > 0 {
            let fps_sample = telemetry::instantaneous_fps_milli(input.dt_ms);
            self.fps.record_sample(input.now_ms, fps_sample);
        }
        let fps_text = self.fps.display_refresh(input.now_ms);

        let report = telemetry::periodic_report(&self.fps, &mut self.stats, input.now_ms);

        let entity_text = if self.stats.total_entities != self.displayed_total {
            self.displayed_total = self.stats.total_entities;
            Some(text_out::entities_text(self.stats.total_entities as u64))
        } else {
            None
        };

        FrameOutput { spawn_log, spawn_rejected, fps_text, entity_text, report }
    }
}

impl View for Simulation {
    type V = Seq<EntityRecord>;

    /// A simulation is viewed as its population.
    open spec fn view(&self) -> Seq<EntityRecord> {
        self.store@
    }
}

fn camera_step(angle: u64, dt_ms: u32) -> (r: u64)
    requires
        angle < config::TURN_UNITS,
    ensures
        r == spec_camera_step(angle as int, dt_ms as int),
        r < config::TURN_UNITS,
{
    let d: u64 = dt_ms as u64;
    proof {
        assert(d * (config::CAMERA_SPEED_MILLI as u64) <= 4294967295u64 * 100 && d
            * (config::CAMERA_SPEED_MILLI as u64) * 100 <= 4294967295u64 * 100 * 100) by (
        nonlinear_arith)
            requires
                d <= 4294967295u64,
        ;
    }
    let inc: u64 = d * (config::CAMERA_SPEED_MILLI as u64) * 100;
    (angle + inc) % config::TURN_UNITS
}

} // verus!
