//! Handles of one linked shader program. Compiling, linking and binding
//! happen on the GPU side outside this crate; this type only carries the
//! handles it is given.

use vstd::prelude::*;

verus! {

pub struct ShaderProgram {
    pub vertex_shader: u32,
    pub fragment_shader: u32,
    pub shader_program: u32,
}

impl ShaderProgram {
    /// The null program: all handles zero.
    pub fn new() -> (p: ShaderProgram)
        ensures
            p.vertex_shader == 0,
            p.fragment_shader == 0,
            p.shader_program == 0,
    {
        ShaderProgram { vertex_shader: 0, fragment_shader: 0, shader_program: 0 }
    }

    /// Wrap the handles of an already-built program.
    pub fn new_init(vertex_shader: u32, fragment_shader: u32, shader_program: u32) -> (p:
        ShaderProgram)
        ensures
            p.vertex_shader == vertex_shader,
            p.fragment_shader == fragment_shader,
            p.shader_program == shader_program,
    {
        ShaderProgram { vertex_shader, fragment_shader, shader_program }
    }
}

} // verus!
