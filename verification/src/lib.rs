//! Verified core of the TimeBreak desktop aim trainer: the break
//! lifecycle, shot tallies and bias classification, the coaching
//! engine's decisions, the weapon catalogue, recoil progression,
//! target layouts and the spawn schedule.
use vstd::prelude::*;

pub mod metrics;
pub mod player;
pub mod recoil;
pub mod recommender;
pub mod spawner;
pub mod spread;
pub mod state;
pub mod target;
pub mod telemetry;
pub mod weapon;

verus! {

} // verus!
