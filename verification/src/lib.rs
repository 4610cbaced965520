//! A verified core for a CRT-display simulation: per-tick state updates driven
//! by edge-triggered input, clamped continuous parameters, and the ordered,
//! stack-disciplined sequence of render passes that composes one frame.
//!
//! Everything that touches a GPU, a window or a clock lives outside this
//! library; the library works on plain values (integers, fixed-point scalars,
//! enums) and describes a frame as data: a list of render commands against a
//! pooled stack of off-screen buffers.

pub mod general_types;
pub mod input;
pub mod action_bindings;
pub mod camera;
pub mod events;
pub mod filters;
pub mod fixed;
pub mod messages;
pub mod overrides;
pub mod params;
pub mod render_types;
pub mod simulation_draw;
pub mod simulation_update;
pub mod resources;

use vstd::prelude::*;

verus! {

} // verus!
