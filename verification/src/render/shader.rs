//! The kinds of shader that make a program.

use vstd::prelude::*;

verus! {

/// The stage of the pipeline that a shader runs in.
#[derive(Clone, Copy, Debug, PartialEq, Eq, Structural)]
pub enum ShaderKind {
    Vertex,
    Fragement,
    Geometry,
}

} // verus!
