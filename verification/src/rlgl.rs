//! Identifiers for the OpenGL abstraction layer.

use vstd::prelude::*;

verus! {

/// OpenGL version
#[derive(Debug, Clone, Copy, PartialEq, Eq, Structural)]
pub enum GlVersion {
    /// OpenGL 1.1
    Gl11,
    /// OpenGL 2.1 (GLSL 120)
    Gl21,
    /// OpenGL 3.3 (GLSL 330)
    Gl33,
    /// OpenGL 4.3 (using GLSL 330)
    Gl43,
    /// OpenGL ES 2.0 (GLSL 100)
    GlES2_0,
    /// OpenGL ES 3.0 (GLSL 300 es)
    GlES3_0,
}

} // verus!
