//! Narrow phase bookkeeping: which candidate pairs become penetration
//! constraints, and with what initial state.
//!
//! The contact query itself is floating-point geometry; the embedding hands
//! its result in per pair, with the verdict whether the signed distance is
//! negative. This module decides, exactly and in candidate-pair order, which
//! contacts become constraints: body-body pairs only, penetrating contacts
//! only, Lagrange multipliers starting at zero. The constraint order is the
//! pair order, which the position solver then sweeps.

use crate::broad::Collidable;
use crate::pose::Vec3Bits;
use vstd::prelude::*;

verus! {

/// One contact record of the narrow phase, scalars as IEEE-754 bit patterns.
#[derive(Clone, Copy, PartialEq, Eq, Structural, Debug)]
pub struct ContactBits {
    /// Contact point on the first shape, world frame.
    pub world_a: Vec3Bits,
    /// Contact point on the second shape, world frame.
    pub world_b: Vec3Bits,
    /// Contact point on the first shape, body frame.
    pub local_a: Vec3Bits,
    /// Contact point on the second shape, body frame.
    pub local_b: Vec3Bits,
    /// Normal pointing out of the first shape.
    pub normal: Vec3Bits,
    /// Signed distance; negative when penetrating.
    pub distance: u32,
    /// The embedding's verdict that the signed distance is negative.
    pub penetrating: bool,
}

/// A penetration constraint as the solver first sees it: the contact record
/// keyed by the two body ids, all accumulators at zero.
#[derive(Clone, Copy, PartialEq, Eq, Structural, Debug)]
pub struct PenetrationConstraint {
    pub a: u64,
    pub b: u64,
    pub world_a: Vec3Bits,
    pub world_b: Vec3Bits,
    pub local_a: Vec3Bits,
    pub local_b: Vec3Bits,
    pub normal: Vec3Bits,
    pub penetration_depth: u32,
    /// Inverse stiffness; zero means rigid.
    pub compliance: u32,
    pub normal_lagrange: u32,
    pub normal_force: Vec3Bits,
    pub tangential_lagrange: u32,
    pub static_friction_force: Vec3Bits,
    pub tangent_lagrange: u32,
}

/// The constraint a penetrating contact of bodies `a` and `b` starts as.
pub open spec fn spec_new_constraint(a: u64, b: u64, c: ContactBits) -> PenetrationConstraint {
    PenetrationConstraint {
        a,
        b,
        world_a: c.world_a,
        world_b: c.world_b,
        local_a: c.local_a,
        local_b: c.local_b,
        normal: c.normal,
        penetration_depth: c.distance,
        compliance: 0u32,
        normal_lagrange: 0u32,
        normal_force: Vec3Bits { x: 0u32, y: 0u32, z: 0u32 },
        tangential_lagrange: 0u32,
        static_friction_force: Vec3Bits { x: 0u32, y: 0u32, z: 0u32 },
        tangent_lagrange: 0u32,
    }
}

/// The constraints of the candidate pairs, in pair order: one for every
/// body-body pair whose contact penetrates; trigger pairs and separated or
/// absent contacts yield none.
pub open spec fn spec_constraints(
    pairs: Seq<(usize, usize)>,
    items: Seq<Collidable>,
    contacts: Seq<Option<ContactBits>>,
) -> Seq<PenetrationConstraint>
    decreases pairs.len(),
{
    if pairs.len() == 0 || contacts.len() < pairs.len() {
        Seq::empty()
    } else {
        let rest = spec_constraints(pairs.drop_first(), items, contacts.drop_first());
        let p = pairs[0];
        if p.0 < items.len() && p.1 < items.len() && !items[p.0 as int].is_trigger
            && !items[p.1 as int].is_trigger {
            match contacts[0] {
                Option::Some(c) => if c.penetrating {
                    seq![spec_new_constraint(items[p.0 as int].id, items[p.1 as int].id, c)] + rest
                } else {
                    rest
                },
                Option::None => rest,
            }
        } else {
            rest
        }
    }
}

/// Generate the penetration constraints of one substep. `contacts[k]` is the
/// contact query's result for `pairs[k]`, or `None` where no contact came
/// back or the pair involves a trigger.
pub fn narrow_phase_constraints(
    pairs: &Vec<(usize, usize)>,
    items: &Vec<Collidable>,
    contacts: &Vec<Option<ContactBits>>,
) -> (r: Vec<PenetrationConstraint>)
    requires
        pairs@.len() == contacts@.len(),
    ensures
        r@ == spec_constraints(pairs@, items@, contacts@),
{
    proof {
        assert(pairs@.skip(0) =~= pairs@);
        assert(contacts@.skip(0) =~= contacts@);
    }
    let mut r: Vec<PenetrationConstraint> = Vec::new();
    let mut i: usize = 0;
    while i < pairs.len()
        invariant
            pairs@.len() == contacts@.len(),
            0 <= i <= pairs@.len(),
            r@ + spec_constraints(pairs@.skip(i as int), items@, contacts@.skip(i as int))
                == spec_constraints(pairs@, items@, contacts@),
        decreases pairs.len() - i,
    {
        proof {
            assert(pairs@.skip(i as int)[0] == pairs@[i as int]);
            assert(contacts@.skip(i as int)[0] == contacts@[i as int]);
            assert(pairs@.skip(i as int).drop_first() =~= pairs@.skip(i + 1));
            assert(contacts@.skip(i as int).drop_first() =~= contacts@.skip(i + 1));
        }
        let ghost r_pre = r@;
        let p = pairs[i];
        if p.0 < items.len() && p.1 < items.len() {
            let item_a = &items[p.0];
            let item_b = &items[p.1];
            if !item_a.is_trigger && !item_b.is_trigger {
                match &contacts[i] {
                    Option::Some(c) => {
                        if c.penetrating {
                            let constraint = PenetrationConstraint {
                                a: item_a.id,
                                b: item_b.id,
                                world_a: c.world_a,
                                world_b: c.world_b,
                                local_a: c.local_a,
                                local_b: c.local_b,
                                normal: c.normal,
                                penetration_depth: c.distance,
                                compliance: 0,
                                normal_lagrange: 0,
                                normal_force: Vec3Bits { x: 0, y: 0, z: 0 },
                                tangential_lagrange: 0,
                                static_friction_force: Vec3Bits { x: 0, y: 0, z: 0 },
                                tangent_lagrange: 0,
                            };
                            r.push(constraint);
                            proof {
                                assert(r@ =~= r_pre + seq![
                                    spec_new_constraint(
                                        items@[p.0 as int].id,
                                        items@[p.1 as int].id,
                                        contacts@[i as int]->Some_0,
                                    ),
                                ]);
                                assert(r@ + spec_constraints(
                                    pairs@.skip(i + 1),
                                    items@,
                                    contacts@.skip(i + 1),
                                ) =~= r_pre + spec_constraints(
                                    pairs@.skip(i as int),
                                    items@,
                                    contacts@.skip(i as int),
                                ));
                            }
                        }
                    },
                    Option::None => {},
                }
            }
        }
        i += 1;
    }
    proof {
        assert(pairs@.skip(pairs@.len() as int).len() == 0);
        assert(r@ =~= r@ + spec_constraints(
            pairs@.skip(pairs@.len() as int),
            items@,
            contacts@.skip(pairs@.len() as int),
        ));
    }
    r
}

} // verus!
