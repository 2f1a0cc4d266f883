//! Broad phase bookkeeping: the indexed items handed to the bounding-volume
//! hierarchy, and the deduplicated candidate pair set read back from it.
//!
//! The hierarchy itself works on dilated bounding boxes and is numeric; the
//! exact parts — how bodies and triggers are tagged with stable indices, and
//! how the raw intersection reports become a canonical pair set — live here.

use vstd::prelude::*;

verus! {

/// One entry of the broad phase: a body or a trigger, with its index in the
/// respective array and a stable index used for ordering pairs.
#[derive(Clone, Copy, PartialEq, Eq, Structural, Debug, Hash)]
pub struct Collidable {
    pub id: u64,
    pub rigidbody_index: usize,
    pub trigger_index: usize,
    pub is_trigger: bool,
    pub collidable_index: usize,
}

/// Identifies one persistent raycast during the broad phase.
#[derive(Clone, Copy, PartialEq, Eq, Structural, Debug, Hash)]
pub struct RayCastEntry {
    pub raycast_id: u64,
    pub raycast_index: usize,
}

/// Tag bodies and triggers as broad-phase items: bodies first, in array
/// order, then triggers, so every item's `collidable_index` is its position.
pub fn collect_collidables(body_ids: &Vec<u64>, trigger_ids: &Vec<u64>) -> (items: Vec<Collidable>)
    requires
        body_ids@.len() + trigger_ids@.len() <= usize::MAX,
    ensures
        items@.len() == body_ids@.len() + trigger_ids@.len(),
        forall|i: int|
            0 <= i < body_ids@.len() ==> items@[i] == (Collidable {
                id: body_ids@[i],
                rigidbody_index: i as usize,
                trigger_index: 0usize,
                is_trigger: false,
                collidable_index: i as usize,
            }),
        forall|i: int|
            0 <= i < trigger_ids@.len() ==> items@[body_ids@.len() + i] == (Collidable {
                id: trigger_ids@[i],
                rigidbody_index: 0usize,
                trigger_index: i as usize,
                is_trigger: true,
                collidable_index: (body_ids@.len() + i) as usize,
            }),
{
    let mut items: Vec<Collidable> = Vec::new();
    let mut i: usize = 0;
    while i < body_ids.len()
        invariant
            body_ids@.len() + trigger_ids@.len() <= usize::MAX,
            0 <= i <= body_ids@.len(),
            items@.len() == i,
            forall|k: int|
                0 <= k < i ==> items@[k] == (Collidable {
                    id: body_ids@[k],
                    rigidbody_index: k as usize,
                    trigger_index: 0usize,
                    is_trigger: false,
                    collidable_index: k as usize,
                }),
        decreases body_ids.len() - i,
    {
        items.push(
            Collidable {
                id: body_ids[i],
                rigidbody_index: i,
                trigger_index: 0,
                is_trigger: false,
                collidable_index: i,
            },
        );
        i += 1;
    }
    let body_count = body_ids.len();
    let mut j: usize = 0;
    while j < trigger_ids.len()
        invariant
            body_count == body_ids@.len(),
            body_ids@.len() + trigger_ids@.len() <= usize::MAX,
            0 <= j <= trigger_ids@.len(),
            items@.len() == body_count + j,
            forall|k: int|
                0 <= k < body_count ==> items@[k] == (Collidable {
                    id: body_ids@[k],
                    rigidbody_index: k as usize,
                    trigger_index: 0usize,
                    is_trigger: false,
                    collidable_index: k as usize,
                }),
            forall|k: int|
                0 <= k < j ==> items@[body_count + k] == (Collidable {
                    id: trigger_ids@[k],
                    rigidbody_index: 0usize,
                    trigger_index: k as usize,
                    is_trigger: true,
                    collidable_index: (body_count + k) as usize,
                }),
        decreases trigger_ids.len() - j,
    {
        items.push(
            Collidable {
                id: trigger_ids[j],
                rigidbody_index: 0,
                trigger_index: j,
                is_trigger: true,
                collidable_index: body_count + j,
            },
        );
        j += 1;
    }
    items
}

/// Some raw intersection report names the unordered pair `p`.
pub open spec fn raw_reports(raw: Seq<(usize, usize)>, p: (usize, usize)) -> bool {
    exists|k: int| 0 <= k < raw.len() && ((#[trigger] raw[k]) == p || raw[k] == (p.1, p.0))
}

/// No pair appears twice.
pub open spec fn distinct_pairs(s: Seq<(usize, usize)>) -> bool {
    forall|i: int, j: int| 0 <= i < j < s.len() ==> s[i] != s[j]
}

fn pairs_contain(v: &Vec<(usize, usize)>, p: (usize, usize)) -> (r: bool)
    ensures
        r == v@.contains(p),
{
    let mut i: usize = 0;
    while i < v.len()
        invariant
            0 <= i <= v.len(),
            forall|k: int| 0 <= k < i ==> v@[k] != p,
        decreases v.len() - i,
    {
        if v[i].0 == p.0 && v[i].1 == p.1 {
            assert(v@[i as int] == p);
            return true;
        }
        i += 1;
    }
    false
}

/// Turn the raw intersection reports of the tree traversal into the candidate
/// pair set: each unordered pair once, smaller index first, self-pairs
/// dropped, in order of first report.
pub fn dedup_pairs(raw: &Vec<(usize, usize)>) -> (pairs: Vec<(usize, usize)>)
    ensures
        distinct_pairs(pairs@),
        forall|k: int| 0 <= k < pairs@.len() ==> (#[trigger] pairs@[k]).0 < pairs@[k].1,
        forall|p: (usize, usize)| pairs@.contains(p) <==> (p.0 < p.1 && raw_reports(raw@, p)),
{
    let mut pairs: Vec<(usize, usize)> = Vec::new();
    let mut i: usize = 0;
    while i < raw.len()
        invariant
            0 <= i <= raw.len(),
            distinct_pairs(pairs@),
            forall|k: int| 0 <= k < pairs@.len() ==> (#[trigger] pairs@[k]).0 < pairs@[k].1,
            forall|p: (usize, usize)|
                pairs@.contains(p) <==> (p.0 < p.1 && raw_reports(raw@.take(i as int), p)),
        decreases raw.len() - i,
    {
        let e = raw[i];
        let ghost before = pairs@;
        if e.0 != e.1 {
            let p = if e.0 < e.1 {
                e
            } else {
                (e.1, e.0)
            };
            if !pairs_contain(&pairs, p) {
                pairs.push(p);
            }
        }
        proof {
            assert(raw@[i as int] == e);
            assert forall|p: (usize, usize)| pairs@.contains(p) implies (p.0 < p.1 && raw_reports(
                raw@.take(i + 1),
                p,
            )) by {
                if before.contains(p) {
                    assert(raw_reports(raw@.take(i as int), p));
                    let k = choose|k: int|
                        0 <= k < i && ((#[trigger] raw@.take(i as int)[k]) == p || raw@.take(
                            i as int,
                        )[k] == (p.1, p.0));
                    assert(raw@.take(i + 1)[k] == raw@[k]);
                } else {
                    assert(pairs@[pairs@.len() - 1] == p);
                    assert(raw@.take(i + 1)[i as int] == e);
                    assert(e == p || e == (p.1, p.0));
                }
            }
            assert forall|p: (usize, usize)| p.0 < p.1 && raw_reports(raw@.take(i + 1), p)
                implies pairs@.contains(p) by {
                let k = choose|k: int|
                    0 <= k < i + 1 && ((#[trigger] raw@.take(i + 1)[k]) == p || raw@.take(i + 1)[k]
                        == (p.1, p.0));
                if k < i {
                    assert(raw@.take(i as int)[k] == raw@[k]);
                    assert(raw_reports(raw@.take(i as int), p));
                    assert(before.contains(p));
                    let m = choose|m: int| 0 <= m < before.len() && before[m] == p;
                    assert(pairs@[m] == p);
                } else {
                    assert(e == p || e == (p.1, p.0));
                    if !before.contains(p) {
                        assert(pairs@[pairs@.len() - 1] == p);
                    } else {
                        let m = choose|m: int| 0 <= m < before.len() && before[m] == p;
                        assert(pairs@[m] == p);
                    }
                }
            }
        }
        i += 1;
    }
    proof {
        assert(raw@.take(raw@.len() as int) == raw@);
    }
    pairs
}

/// The candidate pair set reports no item against itself, and at most one of
/// `(a, b)` and `(b, a)`.
pub proof fn lemma_pair_uniqueness(pairs: Seq<(usize, usize)>, a: usize, b: usize)
    requires
        forall|k: int| 0 <= k < pairs.len() ==> (#[trigger] pairs[k]).0 < pairs[k].1,
    ensures
        !pairs.contains((a, a)),
        pairs.contains((a, b)) ==> !pairs.contains((b, a)),
{
    if pairs.contains((a, a)) {
        let k = choose|k: int| 0 <= k < pairs.len() && pairs[k] == (a, a);
        assert(pairs[k].0 < pairs[k].1);
    }
    if pairs.contains((a, b)) && pairs.contains((b, a)) {
        let k1 = choose|k: int| 0 <= k < pairs.len() && pairs[k] == (a, b);
        let k2 = choose|k: int| 0 <= k < pairs.len() && pairs[k] == (b, a);
        assert(pairs[k1].0 < pairs[k1].1);
        assert(pairs[k2].0 < pairs[k2].1);
    }
}

/// Some visited leaf is the given body (a non-trigger item with that body
/// index).
pub open spec fn visits_body(items: Seq<Collidable>, visited: Seq<usize>, body_index: usize) -> bool {
    exists|k: int|
        0 <= k < visited.len() && (#[trigger] visited[k]) < items.len() && !items[visited[k] as int].is_trigger
            && items[visited[k] as int].rigidbody_index == body_index
}

fn indices_contain(v: &Vec<usize>, x: usize) -> (r: bool)
    ensures
        r == v@.contains(x),
{
    let mut i: usize = 0;
    while i < v.len()
        invariant
            0 <= i <= v.len(),
            forall|k: int| 0 <= k < i ==> v@[k] != x,
        decreases v.len() - i,
    {
        if v[i] == x {
            assert(v@[i as int] == x);
            return true;
        }
        i += 1;
    }
    false
}

/// The candidate bodies of one ray: the body indices of the visited leaves,
/// triggers filtered out, each body once, in order of first visit.
pub fn ray_candidates(items: &Vec<Collidable>, visited: &Vec<usize>) -> (r: Vec<usize>)
    requires
        forall|k: int| 0 <= k < visited@.len() ==> (#[trigger] visited@[k]) < items@.len(),
    ensures
        forall|i: int, j: int| 0 <= i < j < r@.len() ==> r@[i] != r@[j],
        forall|b: usize| r@.contains(b) <==> visits_body(items@, visited@, b),
{
    let mut r: Vec<usize> = Vec::new();
    let mut i: usize = 0;
    while i < visited.len()
        invariant
            forall|k: int| 0 <= k < visited@.len() ==> (#[trigger] visited@[k]) < items@.len(),
            0 <= i <= visited@.len(),
            forall|k1: int, k2: int| 0 <= k1 < k2 < r@.len() ==> r@[k1] != r@[k2],
            forall|b: usize| r@.contains(b) <==> visits_body(items@, visited@.take(i as int), b),
        decreases visited.len() - i,
    {
        let idx = visited[i];
        let item = &items[idx];
        let ghost r_before = r@;
        let mut pushed = false;
        if !item.is_trigger {
            if !indices_contain(&r, item.rigidbody_index) {
                r.push(item.rigidbody_index);
                pushed = true;
            }
        }
        proof {
            assert(visited@[i as int] == idx);
            assert forall|b: usize| r@.contains(b) implies visits_body(
                items@,
                visited@.take(i + 1),
                b,
            ) by {
                if r_before.contains(b) {
                    assert(visits_body(items@, visited@.take(i as int), b));
                    let k = choose|k: int|
                        0 <= k < i && (#[trigger] visited@.take(i as int)[k]) < items@.len()
                            && !items@[visited@.take(i as int)[k] as int].is_trigger
                            && items@[visited@.take(i as int)[k] as int].rigidbody_index == b;
                    assert(visited@.take(i + 1)[k] == visited@[k]);
                } else {
                    assert(b == item.rigidbody_index);
                    assert(visited@.take(i + 1)[i as int] == idx);
                }
            }
            assert forall|b: usize| visits_body(items@, visited@.take(i + 1), b) implies r@
                .contains(b) by {
                let k = choose|k: int|
                    0 <= k < i + 1 && (#[trigger] visited@.take(i + 1)[k]) < items@.len()
                        && !items@[visited@.take(i + 1)[k] as int].is_trigger
                        && items@[visited@.take(i + 1)[k] as int].rigidbody_index == b;
                if k < i {
                    assert(visited@.take(i as int)[k] == visited@[k]);
                    assert(visits_body(items@, visited@.take(i as int), b));
                    assert(r_before.contains(b));
                    let m = choose|m: int| 0 <= m < r_before.len() && r_before[m] == b;
                    assert(r@[m] == b);
                } else {
                    assert(b == item.rigidbody_index);
                    if pushed {
                        assert(r@[r@.len() - 1] == b);
                    } else {
                        assert(r_before.contains(b));
                        let m = choose|m: int| 0 <= m < r_before.len() && r_before[m] == b;
                        assert(r@[m] == b);
                    }
                }
            }
        }
        i += 1;
    }
    proof {
        assert(visited@.take(visited@.len() as int) == visited@);
    }
    r
}

/// How the narrow phase treats one candidate pair.
#[derive(Clone, Copy, PartialEq, Eq, Structural, Debug)]
pub enum PairClass {
    /// Both items are bodies: a contact constraint may be generated.
    BodyBody,
    /// Exactly one item is a trigger: an occupancy verdict is generated.
    TriggerBody { trigger_index: usize, body_index: usize },
    /// Two triggers never interact.
    TriggerTrigger,
}

/// Classify a candidate pair, independently of which side is the trigger.
pub fn classify_pair(a: &Collidable, b: &Collidable) -> (c: PairClass)
    ensures
        (!a.is_trigger && !b.is_trigger) ==> c == PairClass::BodyBody,
        (a.is_trigger && !b.is_trigger) ==> c == (PairClass::TriggerBody {
            trigger_index: a.trigger_index,
            body_index: b.rigidbody_index,
        }),
        (!a.is_trigger && b.is_trigger) ==> c == (PairClass::TriggerBody {
            trigger_index: b.trigger_index,
            body_index: a.rigidbody_index,
        }),
        (a.is_trigger && b.is_trigger) ==> c == PairClass::TriggerTrigger,
{
    if a.is_trigger && b.is_trigger {
        PairClass::TriggerTrigger
    } else if a.is_trigger {
        PairClass::TriggerBody { trigger_index: a.trigger_index, body_index: b.rigidbody_index }
    } else if b.is_trigger {
        PairClass::TriggerBody { trigger_index: b.trigger_index, body_index: a.rigidbody_index }
    } else {
        PairClass::BodyBody
    }
}

} // verus!
