//! The simulation step as a schedule of phases.
//!
//! One step runs the kinematic sync and one broad phase, then for every
//! substep the narrow phase, integration, the configured number of position
//! iterations, the velocity recomputation and the velocity solve, and closes
//! with the trigger update, the raycast update and the writeback. The
//! embedding executes the phases in the order planned here; the plan pins
//! that order down exactly.

use vstd::prelude::*;

verus! {

/// One scheduled tick of a physics world; the schedule time is a
/// microsecond timestamp.
#[derive(Clone, Copy, PartialEq, Eq, Structural, Debug)]
pub struct PhysicsWorldTick {
    pub id: u64,
    pub world_id: u64,
    pub scheduled_at_micros: i64,
}

/// One phase of the step, with the substep (and iteration) it belongs to.
#[derive(Clone, Copy, PartialEq, Eq, Structural, Debug)]
pub enum StepPhase {
    /// Write the supplied poses into the kinematic bodies.
    SyncKinematics,
    /// Rebuild the tree over dilated bounding boxes and collect the
    /// candidate pairs and per-ray candidates.
    BroadPhase,
    /// Generate the penetration constraints of the candidate body pairs.
    NarrowPhase { substep: u32 },
    /// Integrate forces and velocities of the dynamic bodies.
    Integrate { substep: u32 },
    /// One Gauss-Seidel pass over the penetration constraints.
    SolvePositions { substep: u32, iteration: u32 },
    /// Derive the velocities from the pose change of the substep.
    RecomputeVelocities { substep: u32 },
    /// Apply restitution and dynamic-friction velocity corrections.
    SolveVelocities { substep: u32 },
    /// Fold the trigger verdicts and report occupancy diffs.
    UpdateTriggers,
    /// Cast the rays and report hit diffs.
    UpdateRaycasts,
    /// Hand the mutated bodies, triggers and rays back to the store.
    Writeback,
}

/// The position iterations of one substep, in order.
pub open spec fn spec_position_passes(substep: u32, iterations: u32) -> Seq<StepPhase> {
    Seq::new(
        iterations as nat,
        |k: int| StepPhase::SolvePositions { substep, iteration: k as u32 },
    )
}

/// The phases of one substep, in order.
pub open spec fn spec_substep_phases(substep: u32, iterations: u32) -> Seq<StepPhase> {
    seq![StepPhase::NarrowPhase { substep }, StepPhase::Integrate { substep }]
        + spec_position_passes(substep, iterations) + seq![
        StepPhase::RecomputeVelocities { substep },
        StepPhase::SolveVelocities { substep },
    ]
}

/// The phases of the first `n` substeps, in order.
pub open spec fn spec_substeps(n: u32, iterations: u32) -> Seq<StepPhase>
    decreases n,
{
    if n == 0 {
        Seq::empty()
    } else {
        spec_substeps((n - 1) as u32, iterations) + spec_substep_phases(
            (n - 1) as u32,
            iterations,
        )
    }
}

/// The whole step.
pub open spec fn spec_step_plan(sub_steps: u32, iterations: u32) -> Seq<StepPhase> {
    seq![StepPhase::SyncKinematics, StepPhase::BroadPhase] + spec_substeps(sub_steps, iterations)
        + seq![StepPhase::UpdateTriggers, StepPhase::UpdateRaycasts, StepPhase::Writeback]
}

/// Plan one step: the exact phase order the step runs, substeps and position
/// iterations unrolled.
pub fn step_plan(sub_steps: u32, position_iterations: u32) -> (plan: Vec<StepPhase>)
    requires
        sub_steps * (4 + position_iterations) + 5 <= usize::MAX,
    ensures
        plan@ == spec_step_plan(sub_steps, position_iterations),
{
    let mut plan: Vec<StepPhase> = Vec::new();
    plan.push(StepPhase::SyncKinematics);
    plan.push(StepPhase::BroadPhase);
    proof {
        assert(plan@ =~= seq![StepPhase::SyncKinematics, StepPhase::BroadPhase]);
        assert(plan@ =~= seq![StepPhase::SyncKinematics, StepPhase::BroadPhase] + spec_substeps(
            0,
            position_iterations,
        ));
    }
    let mut s: u32 = 0;
    while s < sub_steps
        invariant
            0 <= s <= sub_steps,
            plan@ == seq![StepPhase::SyncKinematics, StepPhase::BroadPhase] + spec_substeps(
                s,
                position_iterations,
            ),
        decreases sub_steps - s,
    {
        let ghost at_substep = plan@;
        plan.push(StepPhase::NarrowPhase { substep: s });
        plan.push(StepPhase::Integrate { substep: s });
        let ghost before_passes = plan@;
        let mut k: u32 = 0;
        while k < position_iterations
            invariant
                0 <= k <= position_iterations,
                plan@ == before_passes + spec_position_passes(s, k),
            decreases position_iterations - k,
        {
            plan.push(StepPhase::SolvePositions { substep: s, iteration: k });
            proof {
                assert(spec_position_passes(s, (k + 1) as u32) =~= spec_position_passes(
                    s,
                    k,
                ).push(StepPhase::SolvePositions { substep: s, iteration: k }));
                assert(plan@ =~= before_passes + spec_position_passes(s, (k + 1) as u32));
            }
            k += 1;
        }
        plan.push(StepPhase::RecomputeVelocities { substep: s });
        plan.push(StepPhase::SolveVelocities { substep: s });
        proof {
            assert(plan@ =~= at_substep + spec_substep_phases(s, position_iterations));
            assert(spec_substeps((s + 1) as u32, position_iterations) =~= spec_substeps(
                s,
                position_iterations,
            ) + spec_substep_phases(s, position_iterations));
            assert(plan@ =~= seq![StepPhase::SyncKinematics, StepPhase::BroadPhase]
                + spec_substeps((s + 1) as u32, position_iterations));
        }
        s += 1;
    }
    plan.push(StepPhase::UpdateTriggers);
    plan.push(StepPhase::UpdateRaycasts);
    plan.push(StepPhase::Writeback);
    proof {
        assert(plan@ =~= spec_step_plan(sub_steps, position_iterations));
    }
    plan
}

} // verus!
