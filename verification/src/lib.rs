//! Discrete core of a lobby-based multiplayer ball-combat game and of the
//! rigid-body physics step that drives it.
//!
//! The physics step mixes floating-point geometry with discrete bookkeeping:
//! which bodies form candidate pairs, which bodies sit inside which trigger,
//! which ray hits appeared or disappeared, which poses a kinematic override
//! replaces, and in which order the phases run. The bookkeeping is exact and
//! lives here, verified; the numeric kernels (integration, contact solving,
//! shape queries) live with the embedding, which hands results in and out as
//! plain values. Scalars the core only stores and compares — poses,
//! velocities, hit distances — are carried as IEEE-754 bit patterns.
//!
//! - [`pose`], [`idset`]: bit-pattern scalars and canonical sorted id sets.
//! - [`body`], [`collider`]: stored bodies, kinematic overrides, id order.
//! - [`broad`], [`narrow`], [`step`]: broad-phase items, candidate pairs,
//!   constraint generation, and the step plan.
//! - [`trigger`], [`ray`]: occupancy and hit sets with edge-triggered diffs.
//! - [`player`], [`lobby`], [`weapons`], [`game`]: the game rules.

pub mod body;
pub mod broad;
pub mod collider;
pub mod game;
pub mod idset;
pub mod lobby;
pub mod narrow;
pub mod player;
pub mod pose;
pub mod ray;
pub mod step;
pub mod trigger;
pub mod weapons;
