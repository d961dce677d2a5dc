//! Verified core of a rotating "globe" of Lorenz trajectories: the per-particle
//! orbit window, the ensemble with its tick count, and the trail walk that turns
//! a particle's projected history into line commands.
pub mod orbit;
pub mod particle;
pub mod ensemble;
pub mod trail;
pub mod schedule;
