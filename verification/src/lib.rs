//! GPU pipeline lifecycle manager for a full-screen procedural shader
//! effect: a fixed render pipeline bound to two uniform inputs, an
//! anti-aliased offscreen target kept in lockstep with a resizable
//! presentation surface, and a per-frame update/submit protocol driven
//! by window events.

pub mod f32bits;
pub mod pipeline;
pub mod scheduler;
pub mod surface;
pub mod uniforms;
