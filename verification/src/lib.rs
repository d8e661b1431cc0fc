//! A verified scene description for a ragdoll-like articulated humanoid:
//! rigid segments connected by six-degree-of-freedom joints, standing on a
//! heightfield ground plane.
//!
//! Every length, mass and coefficient is held in thousandths of its base
//! unit (millimetres for lengths, grams for masses, thousandths for
//! dimensionless coefficients), so that the whole description is exact
//! integer data and its construction can be verified.

pub mod ground;
pub mod groups;
pub mod humanoid;
pub mod joints;
pub mod math;
pub mod mesh;
pub mod sim;
