//! Stepping parameters of the physics simulation.

use vstd::prelude::*;

verus! {

/// How the host steps the physics: a fixed timestep of one over `fps`
/// split into `substeps`, and the solver's iteration caps.
#[derive(Clone, Copy, Debug, PartialEq, Eq, Structural)]
pub struct SimConfig {
    pub fps: u32,
    pub substeps: u32,
    pub max_velocity_iterations: u32,
    pub max_stabilization_iterations: u32,
}

/// The simulation parameters: sixty steps per second, ten substeps each,
/// and both solver iteration caps raised to 512.
pub fn sim_config() -> (r: SimConfig)
    ensures
        r == (SimConfig {
            fps: 60,
            substeps: 10,
            max_velocity_iterations: 512,
            max_stabilization_iterations: 512,
        }),
{
    SimConfig { fps: 60, substeps: 10, max_velocity_iterations: 512, max_stabilization_iterations: 512 }
}

} // verus!
