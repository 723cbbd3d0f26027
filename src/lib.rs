//! Canonical persona records, derived from the raw records of a fusion
//! calculator: the stats at which a persona is strongest, and the damage types
//! that it resists or is weak to.

pub mod convert;
pub mod model;
pub mod resistances;
pub mod stats;
