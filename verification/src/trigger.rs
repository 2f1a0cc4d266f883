//! Trigger occupancy: which bodies are inside a sensor volume, and the
//! edge-triggered enter/leave reports.
//!
//! The narrow phase answers, for every candidate (trigger, body) pair, whether
//! the body's shape currently intersects the trigger's shape. Those verdicts
//! are folded into the trigger's occupancy set, and the step reports exactly
//! the bodies that entered (`added_entities`) and left (`removed_entities`)
//! relative to the occupancy stored before the step.

use crate::idset::{id_diff, id_insert, id_remove, strictly_sorted};
use crate::pose::{QuatBits, Vec3Bits};
use vstd::prelude::*;

verus! {

/// A sensor volume together with its occupancy sets, as stored between steps.
///
/// Poses are carried as bit patterns; the id sets are strictly sorted so a
/// given set has exactly one stored form.
pub struct Trigger {
    pub id: u64,
    pub world_id: u64,
    pub position: Vec3Bits,
    pub rotation: QuatBits,
    pub collider_id: u64,
    /// Bodies inside the trigger after the latest step.
    pub entities_inside: Vec<u64>,
    /// Bodies that entered during the latest step; overwritten each step.
    pub added_entities: Vec<u64>,
    /// Bodies that left during the latest step; overwritten each step.
    pub removed_entities: Vec<u64>,
}

impl Trigger {
    /// The three occupancy sets are strictly sorted.
    pub open spec fn well_formed(self) -> bool {
        &&& strictly_sorted(self.entities_inside@)
        &&& strictly_sorted(self.added_entities@)
        &&& strictly_sorted(self.removed_entities@)
    }
}

/// Each body id appears in at most one verdict.
pub open spec fn distinct_events(events: Seq<(u64, bool)>) -> bool {
    forall|i: int, j: int|
        0 <= i < j < events.len() ==> (#[trigger] events[i]).0 != (#[trigger] events[j]).0
}

/// Some verdict places body `y` inside the trigger.
pub open spec fn event_marks_inside(events: Seq<(u64, bool)>, y: u64) -> bool {
    exists|k: int| 0 <= k < events.len() && (#[trigger] events[k]) == (y, true)
}

/// The occupancy a step's verdicts produce.
pub open spec fn spec_occupancy(events: Seq<(u64, bool)>) -> Set<u64> {
    Set::new(|y: u64| event_marks_inside(events, y))
}

/// The bodies a step reports as having entered, given the occupancy stored
/// before it.
pub open spec fn spec_entered(before: Set<u64>, events: Seq<(u64, bool)>) -> Set<u64> {
    spec_occupancy(events).difference(before)
}

/// The bodies a step reports as having left.
pub open spec fn spec_left(before: Set<u64>, events: Seq<(u64, bool)>) -> Set<u64> {
    before.difference(spec_occupancy(events))
}

/// Fold per-body intersection verdicts into the set of bodies now inside.
///
/// A `(body, true)` verdict puts the body in, a `(body, false)` verdict keeps
/// it out; bodies without a verdict (no candidate pair) are out.
pub fn fold_trigger_events(events: &Vec<(u64, bool)>) -> (inside: Vec<u64>)
    requires
        distinct_events(events@),
    ensures
        strictly_sorted(inside@),
        forall|y: u64| inside@.contains(y) <==> event_marks_inside(events@, y),
{
    let mut inside: Vec<u64> = Vec::new();
    let mut i: usize = 0;
    while i < events.len()
        invariant
            distinct_events(events@),
            strictly_sorted(inside@),
            0 <= i <= events.len(),
            forall|y: u64| inside@.contains(y) <==> event_marks_inside(events@.take(i as int), y),
        decreases events.len() - i,
    {
        let e = events[i];
        let b = e.0;
        if e.1 {
            id_insert(&mut inside, b);
        } else {
            id_remove(&mut inside, b);
        }
        proof {
            assert(events@[i as int] == e);
            assert forall|y: u64| inside@.contains(y) implies event_marks_inside(
                events@.take(i + 1),
                y,
            ) by {
                if e.1 && y == b {
                    assert(events@.take(i + 1)[i as int] == (y, true));
                } else {
                    assert(event_marks_inside(events@.take(i as int), y));
                    let k = choose|k: int|
                        0 <= k < i && (#[trigger] events@.take(i as int)[k]) == (y, true);
                    assert(events@.take(i + 1)[k] == (y, true));
                }
            }
            assert forall|y: u64| event_marks_inside(events@.take(i + 1), y) implies inside@
                .contains(y) by {
                let k = choose|k: int|
                    0 <= k < i + 1 && (#[trigger] events@.take(i + 1)[k]) == (y, true);
                if k < i {
                    assert(events@.take(i as int)[k] == (y, true));
                    assert(event_marks_inside(events@.take(i as int), y));
                    assert(events@[k] == (y, true));
                    assert(events@[k].0 == events@[i as int].0 ==> k == i);
                } else {
                    assert(events@[i as int] == (y, true));
                }
            }
        }
        i += 1;
    }
    proof {
        assert(events@.take(events@.len() as int) == events@);
    }
    inside
}

/// One step of a trigger: fold the verdicts, then report the occupancy
/// difference against the stored state, edge-triggered.
///
/// `added_entities` holds exactly the bodies now inside that were not inside
/// before; `removed_entities` exactly the bodies inside before that are not
/// now; `entities_inside` is replaced by the new occupancy. Identity, pose
/// and collider are untouched.
pub fn trigger_step(trigger: &Trigger, events: &Vec<(u64, bool)>) -> (t: Trigger)
    requires
        trigger.well_formed(),
        distinct_events(events@),
    ensures
        t.well_formed(),
        t.id == trigger.id,
        t.world_id == trigger.world_id,
        t.position == trigger.position,
        t.rotation == trigger.rotation,
        t.collider_id == trigger.collider_id,
        forall|y: u64| t.entities_inside@.contains(y) <==> spec_occupancy(events@).contains(y),
        forall|y: u64|
            t.added_entities@.contains(y) <==> spec_entered(
                trigger.entities_inside@.to_set(),
                events@,
            ).contains(y),
        forall|y: u64|
            t.removed_entities@.contains(y) <==> spec_left(
                trigger.entities_inside@.to_set(),
                events@,
            ).contains(y),
{
    let inside = fold_trigger_events(events);
    let added = id_diff(&inside, &trigger.entities_inside);
    let removed = id_diff(&trigger.entities_inside, &inside);
    Trigger {
        id: trigger.id,
        world_id: trigger.world_id,
        position: trigger.position,
        rotation: trigger.rotation,
        collider_id: trigger.collider_id,
        entities_inside: inside,
        added_entities: added,
        removed_entities: removed,
    }
}

/// A body that enters a trigger is reported as entering at exactly that step;
/// while its verdict stays positive at the next step it is still inside and
/// is reported neither as entering again nor as having left.
pub proof fn lemma_trigger_edge_reports(
    before: Set<u64>,
    e1: Seq<(u64, bool)>,
    e2: Seq<(u64, bool)>,
    body: u64,
)
    requires
        !before.contains(body),
        event_marks_inside(e1, body),
        event_marks_inside(e2, body),
    ensures
        spec_entered(before, e1).contains(body),
        spec_occupancy(e1).contains(body),
        !spec_entered(spec_occupancy(e1), e2).contains(body),
        !spec_left(spec_occupancy(e1), e2).contains(body),
{
}

/// A body inside a trigger whose verdict turns negative is reported as having
/// left at exactly that step, and is no longer inside.
pub proof fn lemma_trigger_leave_report(before: Set<u64>, events: Seq<(u64, bool)>, body: u64)
    requires
        before.contains(body),
        !event_marks_inside(events, body),
    ensures
        spec_left(before, events).contains(body),
        !spec_occupancy(events).contains(body),
        !spec_entered(before, events).contains(body),
{
}

} // verus!
