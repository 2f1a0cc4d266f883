//! Persistent raycasts: hit records, the per-step hit-set difference, and a
//! canonical hit order.
//!
//! The narrow phase casts the ray against every candidate body and hands the
//! resulting records in. The step stores the new hit list and reports which
//! hits appeared (`added_hits`) and disappeared (`removed_hits`) relative to
//! the previous step. Hit equality is exact equality of the stored bit
//! patterns, the same equality the backing store uses.

use crate::pose::Vec3Bits;
use vstd::prelude::*;

verus! {

/// One ray/body intersection, scalars held as IEEE-754 bit patterns.
#[derive(Clone, Copy, PartialEq, Eq, Structural, Debug, Hash)]
pub struct RayCastHit {
    /// Distance from the ray origin to the hit point (bit pattern of a
    /// non-negative 32-bit float, so bit-pattern order is distance order).
    pub distance: u32,
    /// World-space hit point.
    pub position: Vec3Bits,
    /// Surface normal at the hit point, pointing away from the surface.
    pub normal: Vec3Bits,
    /// The body the ray hit.
    pub rigid_body_id: u64,
}

/// A persistent raycast with its hit sets, as stored between steps.
pub struct RayCast {
    pub id: u64,
    pub world_id: u64,
    pub origin: Vec3Bits,
    /// Unit direction of the ray.
    pub direction: Vec3Bits,
    /// Bit pattern of the maximal distance the ray travels.
    pub max_distance: u32,
    /// Whether a ray starting inside a shape hits immediately.
    pub solid: bool,
    /// Hits of the latest step.
    pub hits: Vec<RayCastHit>,
    /// Hits that appeared during the latest step; overwritten each step.
    pub added_hits: Vec<RayCastHit>,
    /// Hits that disappeared during the latest step; overwritten each step.
    pub removed_hits: Vec<RayCastHit>,
}

/// No element appears twice.
pub open spec fn distinct_hits(s: Seq<RayCastHit>) -> bool {
    forall|i: int, j: int| 0 <= i < j < s.len() ==> s[i] != s[j]
}

/// Whether `h` is among the hits of `v`.
pub fn hits_contain(v: &Vec<RayCastHit>, h: RayCastHit) -> (r: bool)
    ensures
        r == v@.contains(h),
{
    let mut i: usize = 0;
    while i < v.len()
        invariant
            0 <= i <= v.len(),
            forall|k: int| 0 <= k < i ==> v@[k] != h,
        decreases v.len() - i,
    {
        if v[i] == h {
            assert(v@[i as int] == h);
            return true;
        }
        i += 1;
    }
    false
}

/// The hits of `a` that are not hits of `b`, each reported once, in `a`'s
/// order of first occurrence.
pub fn hit_diff(a: &Vec<RayCastHit>, b: &Vec<RayCastHit>) -> (r: Vec<RayCastHit>)
    ensures
        distinct_hits(r@),
        forall|h: RayCastHit| r@.contains(h) <==> (a@.contains(h) && !b@.contains(h)),
        hits_sorted(a@) ==> hits_sorted(r@),
{
    let mut r: Vec<RayCastHit> = Vec::new();
    let mut i: usize = 0;
    while i < a.len()
        invariant
            0 <= i <= a.len(),
            distinct_hits(r@),
            forall|h: RayCastHit|
                r@.contains(h) <==> (a@.take(i as int).contains(h) && !b@.contains(h)),
            forall|k: int|
                #![trigger r@[k]]
                0 <= k < r@.len() ==> exists|n: int| 0 <= n < i && #[trigger] a@[n] == r@[k],
            hits_sorted(a@) ==> hits_sorted(r@),
        decreases a.len() - i,
    {
        let x = a[i];
        let ghost r_before = r@;
        let in_b = hits_contain(b, x);
        let in_r = hits_contain(&r, x);
        if !in_b && !in_r {
            proof {
                assert(a@[i as int] == x);
                if hits_sorted(a@) {
                    assert forall|k: int| 0 <= k < r@.len() implies spec_hit_le(r@[k], x) by {
                        let n = choose|n: int| 0 <= n < i && #[trigger] a@[n] == r@[k];
                        assert(spec_hit_le(a@[n], a@[i as int]) || n == i);
                    }
                }
            }
            r.push(x);
        }
        proof {
            assert forall|h: RayCastHit| r@.contains(h) implies (a@.take(i + 1).contains(h)
                && !b@.contains(h)) by {
                if r_before.contains(h) {
                    assert(a@.take(i as int).contains(h));
                    let k = choose|k: int| 0 <= k < i && #[trigger] a@.take(i as int)[k] == h;
                    assert(a@.take(i + 1)[k] == h);
                } else {
                    assert(h == x);
                    assert(a@.take(i + 1)[i as int] == h);
                }
            }
            assert forall|h: RayCastHit| a@.take(i + 1).contains(h) && !b@.contains(h) implies r@
                .contains(h) by {
                if h == x {
                    if !in_r {
                        assert(r@[r@.len() - 1] == h);
                    } else {
                        let m = choose|m: int| 0 <= m < r_before.len() && r_before[m] == h;
                        assert(r@[m] == h);
                    }
                } else {
                    assert(a@.take(i as int).contains(h)) by {
                        let k = choose|k: int|
                            0 <= k < i + 1 && #[trigger] a@.take(i + 1)[k] == h;
                        assert(a@.take(i + 1)[i as int] == x);
                        assert(k != i);
                        assert(a@.take(i as int)[k] == h);
                    }
                    assert(r_before.contains(h));
                    let m = choose|m: int| 0 <= m < r_before.len() && r_before[m] == h;
                    assert(r@[m] == h);
                }
            }
        }
        i += 1;
    }
    proof {
        assert(a@.take(a@.len() as int) == a@);
    }
    r
}

/// Replace a raycast's hits by the hits of the current step and report the
/// difference against the previous step, edge-triggered.
pub fn update_ray_hits(ray: &RayCast, new_hits: &Vec<RayCastHit>) -> (r: RayCast)
    ensures
        r.id == ray.id,
        r.world_id == ray.world_id,
        r.origin == ray.origin,
        r.direction == ray.direction,
        r.max_distance == ray.max_distance,
        r.solid == ray.solid,
        r.hits@ == new_hits@,
        distinct_hits(r.added_hits@),
        distinct_hits(r.removed_hits@),
        forall|h: RayCastHit|
            r.added_hits@.contains(h) <==> (new_hits@.contains(h) && !ray.hits@.contains(h)),
        forall|h: RayCastHit|
            r.removed_hits@.contains(h) <==> (ray.hits@.contains(h) && !new_hits@.contains(h)),
        hits_sorted(new_hits@) ==> hits_sorted(r.added_hits@),
        hits_sorted(ray.hits@) ==> hits_sorted(r.removed_hits@),
{
    let added = hit_diff(new_hits, &ray.hits);
    let removed = hit_diff(&ray.hits, new_hits);
    let mut hits: Vec<RayCastHit> = Vec::new();
    let mut i: usize = 0;
    while i < new_hits.len()
        invariant
            0 <= i <= new_hits.len(),
            hits@ == new_hits@.take(i as int),
        decreases new_hits.len() - i,
    {
        hits.push(new_hits[i]);
        proof {
            assert(hits@ == new_hits@.take(i + 1));
        }
        i += 1;
    }
    proof {
        assert(hits@ == new_hits@);
    }
    RayCast {
        id: ray.id,
        world_id: ray.world_id,
        origin: ray.origin,
        direction: ray.direction,
        max_distance: ray.max_distance,
        solid: ray.solid,
        hits,
        added_hits: added,
        removed_hits: removed,
    }
}

/// Hit `a` precedes hit `b`: smaller distance bit pattern, ties broken by
/// body id. On the non-negative distances a ray produces, bit-pattern order
/// is numeric order.
pub open spec fn spec_hit_le(a: RayCastHit, b: RayCastHit) -> bool {
    a.distance < b.distance || (a.distance == b.distance && a.rigid_body_id <= b.rigid_body_id)
}

/// The hits appear in order of increasing distance.
pub open spec fn hits_sorted(s: Seq<RayCastHit>) -> bool {
    forall|i: int, j: int| 0 <= i < j < s.len() ==> spec_hit_le(s[i], s[j])
}

fn hit_le(a: &RayCastHit, b: &RayCastHit) -> (r: bool)
    ensures
        r == spec_hit_le(*a, *b),
{
    a.distance < b.distance || (a.distance == b.distance && a.rigid_body_id <= b.rigid_body_id)
}

/// The same hits, ordered by increasing distance (ties by body id).
pub fn sort_hits_by_distance(v: &Vec<RayCastHit>) -> (r: Vec<RayCastHit>)
    ensures
        hits_sorted(r@),
        r@.to_multiset() == v@.to_multiset(),
{
    broadcast use vstd::seq_lib::group_to_multiset_ensures;
    broadcast use vstd::multiset::group_multiset_axioms;

    let mut r: Vec<RayCastHit> = Vec::new();
    let mut i: usize = 0;
    while i < v.len()
        invariant
            0 <= i <= v.len(),
            hits_sorted(r@),
            r@.to_multiset() == v@.take(i as int).to_multiset(),
        decreases v.len() - i,
    {
        broadcast use vstd::seq_lib::group_to_multiset_ensures;
        broadcast use vstd::multiset::group_multiset_axioms;

        let x = v[i];
        let mut pos: usize = 0;
        let ghost r_old = r@;
        while pos < r.len() && hit_le(&r[pos], &x)
            invariant
                r@ == r_old,
                0 <= pos <= r.len(),
                forall|k: int| 0 <= k < pos ==> spec_hit_le(r@[k], x),
            decreases r.len() - pos,
        {
            pos += 1;
        }
        r.insert(pos, x);
        proof {
            r_old.insert_ensures(pos as int, x);
            assert forall|k1: int, k2: int| 0 <= k1 < k2 < r@.len() implies spec_hit_le(
                r@[k1],
                r@[k2],
            ) by {
                if k1 < pos && k2 > pos {
                    assert(spec_hit_le(r@[k1], x));
                    assert(spec_hit_le(x, r_old[pos as int]));
                    assert(spec_hit_le(r_old[pos as int], r_old[k2 - 1]) || pos == k2 - 1);
                } else if k1 == pos && k2 > pos {
                    assert(spec_hit_le(x, r_old[pos as int]));
                    assert(spec_hit_le(r_old[pos as int], r_old[k2 - 1]) || pos == k2 - 1);
                }
            }
            let s0 = r_old.subrange(0, pos as int);
            let s1 = r_old.subrange(pos as int, r_old.len() as int);
            assert(r@ == s0.push(x) + s1);
            vstd::seq_lib::lemma_multiset_commutative(s0.push(x), s1);
            vstd::seq_lib::lemma_multiset_commutative(s0, s1);
            assert(r_old =~= s0 + s1);
            assert(s0.push(x).to_multiset() =~= s0.to_multiset().insert(x));
            assert(r@.to_multiset() =~= r_old.to_multiset().insert(x));
            assert(v@.take(i + 1) =~= v@.take(i as int).push(x));
            assert(v@.take(i + 1).to_multiset() =~= v@.take(i as int).to_multiset().insert(x));
        }
        i += 1;
    }
    proof {
        assert(v@.take(v@.len() as int) == v@);
    }
    r
}

/// A sequence none of whose elements it contains is empty.
proof fn lemma_no_member_empty(s: Seq<RayCastHit>)
    requires
        forall|h: RayCastHit| !s.contains(h),
    ensures
        s.len() == 0,
{
    if s.len() > 0 {
        assert(s.contains(s[0]));
    }
}

/// Updating a raycast twice from the same snapshot reports every fresh hit
/// the first time and nothing the second time: once the stored hits equal the
/// incoming hits, the added and removed reports are empty.
pub proof fn lemma_ray_diff_idempotent(stored: RayCast, updated: RayCast, new_hits: Seq<RayCastHit>)
    requires
        stored.hits@ == new_hits,
        forall|h: RayCastHit|
            updated.added_hits@.contains(h) <==> (new_hits.contains(h) && !stored.hits@.contains(
                h,
            )),
        forall|h: RayCastHit|
            updated.removed_hits@.contains(h) <==> (stored.hits@.contains(h)
                && !new_hits.contains(h)),
    ensures
        updated.added_hits@.len() == 0,
        updated.removed_hits@.len() == 0,
{
    assert forall|h: RayCastHit| !updated.added_hits@.contains(h) by {
        assert(!(new_hits.contains(h) && !stored.hits@.contains(h)));
    }
    assert forall|h: RayCastHit| !updated.removed_hits@.contains(h) by {
        assert(!(stored.hits@.contains(h) && !new_hits.contains(h)));
    }
    lemma_no_member_empty(updated.added_hits@);
    lemma_no_member_empty(updated.removed_hits@);
}

} // verus!
