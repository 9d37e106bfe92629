//! Interception planning for a ground agent with bounded speed and turning
//! radius: feasibility analysis of a contact point, sampled shot paths and
//! nearest-point queries along them, and a registry of aim requests.
//!
//! Times are integers in ticks (`TICKS_PER_SECOND` per second) and speeds
//! are in field units per second. Lengths are integers in sub-units, each
//! 1/`SUBUNITS_PER_UNIT` of a field unit, so that a speed moves the agent by
//! exactly `speed` sub-units per tick. Directions are integer vectors scaled
//! so that a unit vector has length `UNIT`.

pub mod analyzer;
pub mod geom;
pub mod laws;
pub mod registry;
pub mod search;
pub mod shot;

