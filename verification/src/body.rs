//! Rigid bodies as stored between steps: type tags, kinematic overrides, the
//! id order the solver relies on, and pair lookup by id.

use crate::pose::{QuatBits, Vec3Bits};
use vstd::prelude::*;

verus! {

/// How a body takes part in the simulation.
#[derive(Clone, Copy, PartialEq, Eq, Structural, Debug)]
pub enum RigidBodyType {
    /// Never moves; infinite mass.
    Static,
    /// Integrated and solved.
    Dynamic,
    /// Pose supplied from outside; infinite mass towards dynamics.
    Kinematic,
}

/// A body's stored state, scalars held as IEEE-754 bit patterns.
#[derive(Clone, Copy, PartialEq, Eq, Structural, Debug)]
pub struct RigidBody {
    pub id: u64,
    pub world_id: u64,
    pub position: Vec3Bits,
    pub rotation: QuatBits,
    pub linear_velocity: Vec3Bits,
    pub angular_velocity: Vec3Bits,
    pub force: Vec3Bits,
    pub torque: Vec3Bits,
    pub body_type: RigidBodyType,
    pub collider_id: u64,
    pub properties_id: u64,
}

impl RigidBody {
    pub fn is_dynamic(&self) -> (r: bool)
        ensures
            r == (self.body_type == RigidBodyType::Dynamic),
    {
        self.body_type == RigidBodyType::Dynamic
    }

    pub fn is_kinematic(&self) -> (r: bool)
        ensures
            r == (self.body_type == RigidBodyType::Kinematic),
    {
        self.body_type == RigidBodyType::Kinematic
    }
}

/// One externally supplied pose: body id, position, rotation.
pub type KinematicOverride = (u64, Vec3Bits, QuatBits);

/// At most one override per body id.
pub open spec fn distinct_overrides(ov: Seq<KinematicOverride>) -> bool {
    forall|i: int, j: int| 0 <= i < j < ov.len() ==> (#[trigger] ov[i]).0 != (#[trigger] ov[j]).0
}

/// Some override addresses body `id`.
pub open spec fn has_override(ov: Seq<KinematicOverride>, id: u64) -> bool {
    exists|k: int| 0 <= k < ov.len() && (#[trigger] ov[k]).0 == id
}

/// The body after the override pass: a kinematic body with a matching
/// override takes the supplied pose; everything else is untouched.
pub open spec fn spec_apply_override(b: RigidBody, ov: Seq<KinematicOverride>) -> RigidBody {
    if b.body_type == RigidBodyType::Kinematic && has_override(ov, b.id) {
        let k = choose|k: int| 0 <= k < ov.len() && (#[trigger] ov[k]).0 == b.id;
        RigidBody { position: ov[k].1, rotation: ov[k].2, ..b }
    } else {
        b
    }
}

/// Write the supplied poses into the kinematic bodies before integration.
///
/// Bodies of the other types, and kinematic bodies without an override, keep
/// their stored pose; no other field of any body changes.
pub fn sync_kinematic_bodies(bodies: &mut Vec<RigidBody>, overrides: &Vec<KinematicOverride>)
    requires
        distinct_overrides(overrides@),
    ensures
        final(bodies)@.len() == old(bodies)@.len(),
        forall|i: int|
            0 <= i < old(bodies)@.len() ==> final(bodies)@[i] == spec_apply_override(
                old(bodies)@[i],
                overrides@,
            ),
{
    let n = bodies.len();
    let mut i: usize = 0;
    while i < n
        invariant
            distinct_overrides(overrides@),
            n == old(bodies)@.len(),
            bodies@.len() == n,
            0 <= i <= n,
            forall|k: int|
                0 <= k < i ==> bodies@[k] == spec_apply_override(old(bodies)@[k], overrides@),
            forall|k: int| i <= k < n ==> bodies@[k] == old(bodies)@[k],
        decreases n - i,
    {
        let b = bodies[i];
        if b.is_kinematic() {
            match find_override(overrides, b.id) {
                Some(k) => {
                    let ov = overrides[k];
                    let updated = RigidBody { position: ov.1, rotation: ov.2, ..b };
                    bodies.set(i, updated);
                    proof {
                        assert(overrides@[k as int].0 == b.id);
                        assert(has_override(overrides@, b.id));
                        let c = choose|c: int|
                            0 <= c < overrides@.len() && (#[trigger] overrides@[c]).0 == b.id;
                        assert(c == k as int);
                        assert(bodies@[i as int] == spec_apply_override(
                            old(bodies)@[i as int],
                            overrides@,
                        ));
                    }
                },
                None => {
                    proof {
                        assert(!has_override(overrides@, b.id));
                    }
                },
            }
        }
        proof {
            assert(bodies@[i as int] == spec_apply_override(old(bodies)@[i as int], overrides@));
        }
        i += 1;
    }
}

/// The index of the override addressing body `id`, if any.
fn find_override(overrides: &Vec<KinematicOverride>, id: u64) -> (r: Option<usize>)
    ensures
        match r {
            Some(k) => k < overrides@.len() && overrides@[k as int].0 == id,
            None => forall|m: int|
                0 <= m < overrides@.len() ==> (#[trigger] overrides@[m]).0 != id,
        },
{
    let mut k: usize = 0;
    while k < overrides.len()
        invariant
            0 <= k <= overrides@.len(),
            forall|m: int| 0 <= m < k ==> (#[trigger] overrides@[m]).0 != id,
        decreases overrides.len() - k,
    {
        if overrides[k].0 == id {
            return Some(k);
        }
        k += 1;
    }
    None
}

/// Force the velocities of every non-dynamic body to zero, as the velocity
/// recomputation pass does; dynamic bodies are untouched.
pub fn clear_non_dynamic_velocities(bodies: &mut Vec<RigidBody>)
    ensures
        final(bodies)@.len() == old(bodies)@.len(),
        forall|i: int|
            0 <= i < old(bodies)@.len() ==> final(bodies)@[i] == (if old(
                bodies,
            )@[i].body_type == RigidBodyType::Dynamic {
                old(bodies)@[i]
            } else {
                RigidBody {
                    linear_velocity: Vec3Bits { x: 0u32, y: 0u32, z: 0u32 },
                    angular_velocity: Vec3Bits { x: 0u32, y: 0u32, z: 0u32 },
                    ..old(bodies)@[i]
                }
            }),
{
    let n = bodies.len();
    let mut i: usize = 0;
    while i < n
        invariant
            n == old(bodies)@.len(),
            bodies@.len() == n,
            0 <= i <= n,
            forall|k: int|
                0 <= k < i ==> bodies@[k] == (if old(bodies)@[k].body_type
                    == RigidBodyType::Dynamic {
                    old(bodies)@[k]
                } else {
                    RigidBody {
                        linear_velocity: Vec3Bits { x: 0u32, y: 0u32, z: 0u32 },
                        angular_velocity: Vec3Bits { x: 0u32, y: 0u32, z: 0u32 },
                        ..old(bodies)@[k]
                    }
                }),
            forall|k: int| i <= k < n ==> bodies@[k] == old(bodies)@[k],
        decreases n - i,
    {
        let b = bodies[i];
        if !b.is_dynamic() {
            let updated = RigidBody {
                linear_velocity: Vec3Bits::zero(),
                angular_velocity: Vec3Bits::zero(),
                ..b
            };
            bodies.set(i, updated);
        }
        i += 1;
    }
}

/// The bodies appear in strictly increasing id order.
pub open spec fn bodies_sorted_by_id(s: Seq<RigidBody>) -> bool {
    forall|i: int, j: int| 0 <= i < j < s.len() ==> s[i].id < s[j].id
}

/// No two bodies share an id.
pub open spec fn distinct_body_ids(s: Seq<RigidBody>) -> bool {
    forall|i: int, j: int| 0 <= i < j < s.len() ==> s[i].id != s[j].id
}

/// The bodies of the snapshot in strictly increasing id order, as the solver
/// requires for pair lookup by id.
pub fn sort_bodies_by_id(v: &Vec<RigidBody>) -> (r: Vec<RigidBody>)
    requires
        distinct_body_ids(v@),
    ensures
        bodies_sorted_by_id(r@),
        r@.to_multiset() == v@.to_multiset(),
{
    broadcast use vstd::seq_lib::group_to_multiset_ensures;
    broadcast use vstd::multiset::group_multiset_axioms;

    let mut r: Vec<RigidBody> = Vec::new();
    let mut i: usize = 0;
    while i < v.len()
        invariant
            distinct_body_ids(v@),
            0 <= i <= v.len(),
            bodies_sorted_by_id(r@),
            r@.to_multiset() == v@.take(i as int).to_multiset(),
        decreases v.len() - i,
    {
        broadcast use vstd::seq_lib::group_to_multiset_ensures;
        broadcast use vstd::multiset::group_multiset_axioms;

        let x = v[i];
        proof {
            assert(v@[i as int] == x);
            assert forall|m: int| 0 <= m < r@.len() implies (#[trigger] r@[m]).id != x.id by {
                assert(r@.contains(r@[m]));
                assert(r@.to_multiset().count(r@[m]) > 0);
                assert(v@.take(i as int).contains(r@[m]));
                let n = choose|n: int|
                    0 <= n < i && #[trigger] v@.take(i as int)[n] == r@[m];
                assert(v@[n] == r@[m]);
            }
        }
        let mut pos: usize = 0;
        let ghost r_old = r@;
        while pos < r.len() && r[pos].id < x.id
            invariant
                r@ == r_old,
                0 <= pos <= r.len(),
                forall|k: int| 0 <= k < pos ==> r@[k].id < x.id,
            decreases r.len() - pos,
        {
            pos += 1;
        }
        r.insert(pos, x);
        proof {
            r_old.insert_ensures(pos as int, x);
            assert forall|m: int| 0 <= m < r_old.len() implies (#[trigger] r_old[m]).id != x.id by {
                assert(r_old.contains(r_old[m]));
            }
            assert forall|k1: int, k2: int| 0 <= k1 < k2 < r@.len() implies r@[k1].id < r@[k2].id by {
                if k1 < pos && k2 > pos {
                    assert(r@[k2] == r_old[k2 - 1]);
                } else if k1 == pos && k2 > pos {
                    assert(r_old[pos as int].id >= x.id);
                    assert(r_old[pos as int].id != x.id);
                    assert(r@[k2] == r_old[k2 - 1]);
                    assert(r_old[pos as int].id <= r_old[k2 - 1].id);
                }
            }
            let s0 = r_old.subrange(0, pos as int);
            let s1 = r_old.subrange(pos as int, r_old.len() as int);
            assert(r@ == s0.push(x) + s1);
            vstd::seq_lib::lemma_multiset_commutative(s0.push(x), s1);
            vstd::seq_lib::lemma_multiset_commutative(s0, s1);
            assert(r_old =~= s0 + s1);
            assert(s0.push(x).to_multiset() =~= s0.to_multiset().insert(x));
            assert(r@.to_multiset() =~= r_old.to_multiset().insert(x));
            assert(v@.take(i + 1) =~= v@.take(i as int).push(x));
            assert(v@.take(i + 1).to_multiset() =~= v@.take(i as int).to_multiset().insert(x));
        }
        i += 1;
    }
    proof {
        assert(v@.take(v@.len() as int) == v@);
    }
    r
}

/// The index of the body with the given id, found by binary search over the
/// id order, or `None` if no body has it.
pub fn find_body_index(bodies: &Vec<RigidBody>, id: u64) -> (r: Option<usize>)
    requires
        bodies_sorted_by_id(bodies@),
    ensures
        match r {
            Some(i) => i < bodies@.len() && bodies@[i as int].id == id,
            None => forall|k: int| 0 <= k < bodies@.len() ==> (#[trigger] bodies@[k]).id != id,
        },
{
    let mut lo: usize = 0;
    let mut hi: usize = bodies.len();
    while lo < hi
        invariant
            bodies_sorted_by_id(bodies@),
            0 <= lo <= hi <= bodies@.len(),
            forall|k: int| 0 <= k < lo ==> (#[trigger] bodies@[k]).id < id,
            forall|k: int| hi <= k < bodies@.len() ==> (#[trigger] bodies@[k]).id > id,
        decreases hi - lo,
    {
        let mid = lo + (hi - lo) / 2;
        if bodies[mid].id == id {
            return Some(mid);
        } else if bodies[mid].id < id {
            proof {
                assert forall|k: int| 0 <= k < mid + 1 implies (#[trigger] bodies@[k]).id < id by {
                    if k < mid {
                        assert(bodies@[k].id < bodies@[mid as int].id);
                    }
                }
            }
            lo = mid + 1;
        } else {
            proof {
                assert forall|k: int| mid <= k < bodies@.len() implies (#[trigger] bodies@[k]).id
                    > id by {
                    if k > mid {
                        assert(bodies@[mid as int].id < bodies@[k].id);
                    }
                }
            }
            hi = mid;
        }
    }
    None
}

/// Resolve a constraint's two body ids to array indices, smaller index first.
///
/// The bodies are sorted by id, so the body with the smaller id has the
/// smaller index; solving a pair then splits the array at the larger index.
/// Both ids must be present.
pub fn body_pair_indices(bodies: &Vec<RigidBody>, id_a: u64, id_b: u64) -> (r: (usize, usize))
    requires
        bodies_sorted_by_id(bodies@),
        id_a != id_b,
        exists|i: int| 0 <= i < bodies@.len() && (#[trigger] bodies@[i]).id == id_a,
        exists|i: int| 0 <= i < bodies@.len() && (#[trigger] bodies@[i]).id == id_b,
    ensures
        r.0 < r.1 < bodies@.len(),
        bodies@[r.0 as int].id == if id_a < id_b {
            id_a
        } else {
            id_b
        },
        bodies@[r.1 as int].id == if id_a < id_b {
            id_b
        } else {
            id_a
        },
{
    let min_id = if id_a < id_b {
        id_a
    } else {
        id_b
    };
    let max_id = if id_a < id_b {
        id_b
    } else {
        id_a
    };
    let ia = match find_body_index(bodies, min_id) {
        Some(i) => i,
        None => {
            proof {
                let w = choose|w: int| 0 <= w < bodies@.len() && (#[trigger] bodies@[w]).id == min_id;
            }
            unreached()
        },
    };
    let ib = match find_body_index(bodies, max_id) {
        Some(i) => i,
        None => {
            proof {
                let w = choose|w: int| 0 <= w < bodies@.len() && (#[trigger] bodies@[w]).id == max_id;
            }
            unreached()
        },
    };
    assert(ia < ib) by {
        assert(bodies@[ia as int].id < bodies@[ib as int].id);
        if ia >= ib {
            if ia == ib {
            } else {
                assert(bodies@[ib as int].id < bodies@[ia as int].id);
            }
        }
    }
    (ia, ib)
}

} // verus!
