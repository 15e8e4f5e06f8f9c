//! A procedural cube-sphere planet and a pan-orbit camera, verified.
//!
//! The geometry and the camera are computed over a signed 64-bit fixed-point
//! scalar (see [`fx`]), so every operation has an exact, machine-checkable
//! meaning.  [`mesh`] builds one subdivided face of the cube, optionally
//! projected onto the unit sphere; [`planet`] owns the six faces and the
//! generation parameters and rebuilds the faces when a geometry parameter
//! changes; [`camera`] holds the orbit state (center, radius, yaw, pitch)
//! and applies per-tick pan, orbit and zoom input to it.

pub mod camera;
pub mod fx;
pub mod mesh;
pub mod planet;
pub mod trig;
