//! A gravitational n-body simulation core: pairwise force accumulation with
//! equal-and-opposite application, and position-Verlet integration on a fixed
//! timestep, over saturating fixed-point vectors.

pub mod body;
pub mod fixed;
pub mod laws;
pub mod particle;
pub mod spawn;
pub mod vec3;
