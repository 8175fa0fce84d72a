//! Handles of a linked shader program. Compilation and linking happen in the
//! graphics context of the embedding program; this crate keeps the resulting
//! opaque handles together and hands them out for draw calls.
use vstd::prelude::*;

verus! {

#[derive(Debug, Clone, Copy, PartialEq, Eq, Structural)]
pub struct ShaderProgram {
    pub gl_shader_program: u32,
    pub gl_vertex_shader: u32,
    pub gl_fragment_shader: u32,
}

impl ShaderProgram {
    pub fn new(gl_shader_program: u32, gl_vertex_shader: u32, gl_fragment_shader: u32) -> (s:
        Self)
        ensures
            s.gl_shader_program == gl_shader_program,
            s.gl_vertex_shader == gl_vertex_shader,
            s.gl_fragment_shader == gl_fragment_shader,
    {
        ShaderProgram { gl_shader_program, gl_vertex_shader, gl_fragment_shader }
    }
}

} // verus!
