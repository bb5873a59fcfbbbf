use vstd::prelude::*;

verus! {

/// A linked GPU shader program, known by its OpenGL object name.
#[derive(Clone, Copy, Debug, PartialEq, Eq, Structural)]
pub struct Shader {
    pub program: u32,
}

} // verus!
