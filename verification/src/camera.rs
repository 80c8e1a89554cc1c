//! Camera projection and control-mode identifiers.
//!
//! The camera itself (position/target/up vectors and their yaw/pitch/roll
//! operators) is floating-point geometry and sits outside the verified core;
//! these are the discrete settings it is driven by.

use vstd::prelude::*;

verus! {

/// Camera projection modes.
#[derive(Debug, Clone, Copy, PartialEq, Eq, Structural)]
pub enum CameraProjection {
    Perspective,
    Orthographic,
}

/// Camera control modes.
#[derive(Debug, Clone, Copy, PartialEq, Eq, Structural)]
pub enum CameraMode {
    /// Camera custom, controlled by user (updating the camera does nothing)
    Custom,
    /// Camera free, controlled in every direction
    Free,
    /// Camera orbital, around target, zoom supported
    Orbital,
    FirstPerson,
    ThirdPerson,
}

} // verus!
