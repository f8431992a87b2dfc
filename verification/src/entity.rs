//! Entity records and the per-frame transform updater.
//!
//! Placement is kept in polar form (angle, radius, height) and the
//! orientation as three accumulated per-axis angles, all in fixed-point
//! units (see `config`), so every update rule is checked. The renderer
//! converts these to cartesian coordinates and quaternions outside the
//! verified core.

use vstd::prelude::*;

use crate::config;

verus! {

/// One independently animated entity: a spatial transform in fixed-point
/// units plus the per-entity angular-velocity multiplier, which is
/// assigned at spawn time and never mutated afterwards. Only the three
/// orientation angles change per frame.
#[derive(Clone, Copy, PartialEq, Eq, Structural, Debug)]
pub struct EntityRecord {
    /// Placement angle around the vertical axis, milliradians.
    pub angle_milli: u64,
    /// Placement radius, milli-units of distance.
    pub radius_milli: u64,
    /// Placement height, milli-units of distance; may be negative.
    pub height_milli: i64,
    /// Uniform scale, milli-units.
    pub scale_milli: u64,
    /// Accumulated orientation about the X axis, angle units.
    pub rot_x: u64,
    /// Accumulated orientation about the Y axis, angle units.
    pub rot_y: u64,
    /// Accumulated orientation about the Z axis, angle units.
    pub rot_z: u64,
    /// Angular-velocity multiplier, milli-units; fixed at spawn.
    pub rotation_speed_milli: u32,
}

impl EntityRecord {
    /// Well-formedness: orientation angles stay below one full turn and
    /// the speed multiplier stays inside its clamp range.
    pub open spec fn wf(self) -> bool {
        &&& self.rot_x < config::TURN_UNITS
        &&& self.rot_y < config::TURN_UNITS
        &&& self.rot_z < config::TURN_UNITS
        &&& config::MIN_SPEED_MILLI <= self.rotation_speed_milli
        &&& self.rotation_speed_milli <= config::MAX_SPEED_MILLI
    }
}

/// Rotation advance about one axis over a frame: the raw increment is
/// `dt * speed * weight` in angle units, folded into the accumulated
/// angle modulo one full turn.
pub open spec fn spec_rot_step(rot: int, dt_ms: int, speed_milli: int, weight_pct: int) -> int {
    (rot + dt_ms * speed_milli * weight_pct) % (config::TURN_UNITS as int)
}

/// One frame's transform update for a single entity: each orientation
/// axis advances by `dt * rotation_speed` scaled by its fixed per-axis
/// weight; every other field is untouched. With `dt_ms == 0` the record
/// is unchanged.
pub open spec fn spec_step(e: EntityRecord, dt_ms: int) -> EntityRecord {
    EntityRecord {
        rot_x: spec_rot_step(
            e.rot_x as int,
            dt_ms,
            e.rotation_speed_milli as int,
            config::WEIGHT_X_PCT as int,
        ) as u64,
        rot_y: spec_rot_step(
            e.rot_y as int,
            dt_ms,
            e.rotation_speed_milli as int,
            config::WEIGHT_Y_PCT as int,
        ) as u64,
        rot_z: spec_rot_step(
            e.rot_z as int,
            dt_ms,
            e.rotation_speed_milli as int,
            config::WEIGHT_Z_PCT as int,
        ) as u64,
        ..e
    }
}

/// A zero time delta is a no-op frame: no orientation changes.
pub proof fn lemma_step_zero_dt(e: EntityRecord)
    requires
        e.wf(),
    ensures
        spec_step(e, 0) == e,
{
    assert(spec_step(e, 0) == e);
}

/// The whole population after one frame: every entity stepped
/// independently with the same time delta.
pub open spec fn spec_step_all(s: Seq<EntityRecord>, dt_ms: int) -> Seq<EntityRecord> {
    Seq::new(s.len(), |i: int| spec_step(s[i], dt_ms))
}

fn rot_axis_step(rot: u64, dt_ms: u32, speed_milli: u32, weight_pct: u64) -> (r: u64)
    requires
        rot < config::TURN_UNITS,
        speed_milli <= config::MAX_SPEED_MILLI,
        weight_pct <= 100,
    ensures
        r == spec_rot_step(rot as int, dt_ms as int, speed_milli as int, weight_pct as int),
        r < config::TURN_UNITS,
{
    let d: u64 = dt_ms as u64;
    let sp: u64 = speed_milli as u64;
    proof {
        assert(d * sp <= 4294967295u64 * 1000 && d * sp * weight_pct <= 4294967295u64 * 1000
            * 100) by (nonlinear_arith)
            requires
                d <= 4294967295u64,
                sp <= 1000,
                weight_pct <= 100,
        ;
    }
    let inc: u64 = d * sp * weight_pct;
    (rot + inc) % config::TURN_UNITS
}

/// One frame's transform update for a single entity.
pub fn step_entity(e: &EntityRecord, dt_ms: u32) -> (r: EntityRecord)
    requires
        e.wf(),
    ensures
        r == spec_step(*e, dt_ms as int),
        r.wf(),
{
    EntityRecord {
        rot_x: rot_axis_step(e.rot_x, dt_ms, e.rotation_speed_milli, config::WEIGHT_X_PCT),
        rot_y: rot_axis_step(e.rot_y, dt_ms, e.rotation_speed_milli, config::WEIGHT_Y_PCT),
        rot_z: rot_axis_step(e.rot_z, dt_ms, e.rotation_speed_milli, config::WEIGHT_Z_PCT),
        ..*e
    }
}

/// The entity store: a contiguous, stably indexed population. Entities
/// are only ever appended (by the spawner) or updated in place (by the
/// per-frame updater); none is ever removed.
pub struct EntityStore {
    /// The backing buffer; append-only between frames, updated in place
    /// within a frame.
    pub recs: Vec<EntityRecord>,
}

impl View for EntityStore {
    type V = Seq<EntityRecord>;

    open spec fn view(&self) -> Seq<EntityRecord> {
        self.recs@
    }
}

impl EntityStore {
    /// Every record is well formed.
    pub open spec fn wf(self) -> bool {
        forall|i: int| 0 <= i < self@.len() ==> self@[i].wf()
    }

    /// An empty store.
    pub fn empty() -> (s: EntityStore)
        ensures
            s@ == Seq::<EntityRecord>::empty(),
            s.wf(),
    {
        EntityStore { recs: Vec::new() }
    }

    /// Number of entities held.
    pub fn len(&self) -> (n: usize)
        ensures
            n == self@.len(),
    {
        self.recs.len()
    }

    /// Read one entity.
    pub fn get(&self, i: usize) -> (e: EntityRecord)
        requires
            i < self@.len(),
        ensures
            e == self@[i as int],
    {
        self.recs[i]
    }

    /// Append one entity.
    pub fn append(&mut self, e: EntityRecord)
        requires
            e.wf(),
            old(self).wf(),
        ensures
            final(self)@ == old(self)@.push(e),
            final(self).wf(),
    {
        self.recs.push(e);
        proof {
            assert forall|i: int| 0 <= i < self@.len() implies self@[i].wf() by {
                if i < old(self)@.len() {
                    assert(self@[i] == old(self)@[i]);
                } else {
                    assert(self@[i] == e);
                }
            }
        }
    }

    /// One frame of the transform updater over the whole population:
    /// afterwards every entity's orientation reflects exactly one frame's
    /// worth of composed rotation, and nothing else changed. Each step
    /// reads and writes only its own record, so any partition of the
    /// index range across workers yields this same result (see
    /// `lemma_update_order_irrelevant`).
    pub fn update_all(&mut self, dt_ms: u32)
        requires
            old(self).wf(),
        ensures
            final(self)@ == spec_step_all(old(self)@, dt_ms as int),
            final(self).wf(),
    {
        let n = self.recs.len();
        let mut i: usize = 0;
        while i < n
            invariant
                n == self.recs.len(),
                i <= n,
                self@.len() == old(self)@.len(),
                forall|k: int| i <= k < n ==> self@[k] == old(self)@[k],
                forall|k: int| 0 <= k < i ==> self@[k] == spec_step(old(self)@[k], dt_ms as int),
                old(self).wf(),
                self.wf(),
            decreases n - i,
        {
            let stepped = step_entity(&self.recs[i], dt_ms);
            self.recs[i] = stepped;
            i = i + 1;
        }
        proof {
            assert(final(self)@ =~= spec_step_all(old(self)@, dt_ms as int));
        }
    }
}

/// Entities applied one at a time in the order given by `order`: the
/// sequential schedule a particular worker interleaving would produce.
pub open spec fn spec_apply_in_order(
    s: Seq<EntityRecord>,
    order: Seq<int>,
    dt_ms: int,
) -> Seq<EntityRecord>
    decreases order.len(),
{
    if order.len() == 0 {
        s
    } else {
        let i = order[0];
        let s2 = if 0 <= i < s.len() {
            s.update(i, spec_step(s[i], dt_ms))
        } else {
            s
        };
        spec_apply_in_order(s2, order.drop_first(), dt_ms)
    }
}

/// `order` visits pairwise-distinct indices.
pub open spec fn spec_distinct(order: Seq<int>) -> bool {
    forall|k1: int, k2: int|
        0 <= k1 < order.len() && 0 <= k2 < order.len() && k1 != k2 ==> order[k1] != order[k2]
}

proof fn lemma_apply_partial(s: Seq<EntityRecord>, order: Seq<int>, dt_ms: int)
    requires
        forall|k: int| 0 <= k < order.len() ==> 0 <= #[trigger] order[k] < s.len(),
        spec_distinct(order),
    ensures
        spec_apply_in_order(s, order, dt_ms).len() == s.len(),
        forall|i: int|
            0 <= i < s.len() ==> #[trigger] spec_apply_in_order(s, order, dt_ms)[i] == (
            if order.contains(i) {
                spec_step(s[i], dt_ms)
            } else {
                s[i]
            }),
    decreases order.len(),
{
    if order.len() == 0 {
        assert(forall|i: int| 0 <= i < s.len() ==> !order.contains(i));
    } else {
        let j = order[0];
        let s2 = s.update(j, spec_step(s[j], dt_ms));
        let tail = order.drop_first();
        assert(forall|k: int| 0 <= k < tail.len() ==> #[trigger] tail[k] == order[k + 1]);
        assert(spec_distinct(tail));
        lemma_apply_partial(s2, tail, dt_ms);
        assert(!tail.contains(j)) by {
            assert(forall|k: int| 0 <= k < tail.len() ==> #[trigger] tail[k] != j);
        }
        assert forall|i: int| 0 <= i < s.len() implies #[trigger] spec_apply_in_order(
            s,
            order,
            dt_ms,
        )[i] == (if order.contains(i) {
            spec_step(s[i], dt_ms)
        } else {
            s[i]
        }) by {
            assert(spec_apply_in_order(s, order, dt_ms) == spec_apply_in_order(s2, tail, dt_ms));
            if i == j {
                assert(order.contains(i)) by {
                    assert(order[0] == i);
                }
                assert(spec_apply_in_order(s2, tail, dt_ms)[i] == s2[i]);
            } else {
                assert(s2[i] == s[i]);
                assert(order.contains(i) <==> tail.contains(i)) by {
                    if order.contains(i) {
                        let k = choose|k: int| 0 <= k < order.len() && order[k] == i;
                        assert(k != 0);
                        assert(tail[k - 1] == i);
                    }
                    if tail.contains(i) {
                        let k = choose|k: int| 0 <= k < tail.len() && tail[k] == i;
                        assert(order[k + 1] == i);
                    }
                }
            }
        }
    }
}

/// Per-entity independence: applying the per-frame step to the indices
/// of the population in any order that visits every index exactly once
/// gives exactly the population of the sequential whole-store pass. The
/// parallel scheduler may therefore partition the store into arbitrary
/// ranges or stripes with no ordering between entities.
pub proof fn lemma_update_order_independent(s: Seq<EntityRecord>, order: Seq<int>, dt_ms: int)
    requires
        forall|k: int| 0 <= k < order.len() ==> 0 <= #[trigger] order[k] < s.len(),
        spec_distinct(order),
        forall|i: int| 0 <= i < s.len() ==> order.contains(i),
    ensures
        spec_apply_in_order(s, order, dt_ms) == spec_step_all(s, dt_ms),
{
    lemma_apply_partial(s, order, dt_ms);
    assert(spec_apply_in_order(s, order, dt_ms) =~= spec_step_all(s, dt_ms));
}

/// Two complete schedules, whatever their interleaving, leave the
/// population in the same state.
pub proof fn lemma_update_order_irrelevant(
    s: Seq<EntityRecord>,
    order1: Seq<int>,
    order2: Seq<int>,
    dt_ms: int,
)
    requires
        forall|k: int| 0 <= k < order1.len() ==> 0 <= #[trigger] order1[k] < s.len(),
        spec_distinct(order1),
        forall|i: int| 0 <= i < s.len() ==> order1.contains(i),
        forall|k: int| 0 <= k < order2.len() ==> 0 <= #[trigger] order2[k] < s.len(),
        spec_distinct(order2),
        forall|i: int| 0 <= i < s.len() ==> order2.contains(i),
    ensures
        spec_apply_in_order(s, order1, dt_ms) == spec_apply_in_order(s, order2, dt_ms),
{
    lemma_update_order_independent(s, order1, dt_ms);
    lemma_update_order_independent(s, order2, dt_ms);
}

} // verus!
