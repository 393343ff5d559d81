use vstd::prelude::*;

verus! {

/// The stage of a shader program that a compile step concerns.
#[derive(Clone, Copy, Debug, PartialEq, Eq, Structural)]
pub enum ShaderCompileType {
    Program,
    Vertex,
    Fragment,
    Geometry,
}

pub open spec fn compile_type_name(t: ShaderCompileType) -> Seq<char> {
    match t {
        ShaderCompileType::Program => "Program"@,
        ShaderCompileType::Vertex => "Vertex"@,
        ShaderCompileType::Fragment => "Fragment"@,
        ShaderCompileType::Geometry => "Geometry"@,
    }
}

impl ShaderCompileType {
    /// The stage's name, as used in diagnostics.
    pub fn name(&self) -> (r: &'static str)
        ensures
            r@ == compile_type_name(*self),
    {
        proof {
            reveal_strlit("Program");
            reveal_strlit("Vertex");
            reveal_strlit("Fragment");
            reveal_strlit("Geometry");
        }
        match self {
            ShaderCompileType::Program => "Program",
            ShaderCompileType::Vertex => "Vertex",
            ShaderCompileType::Fragment => "Fragment",
            ShaderCompileType::Geometry => "Geometry",
        }
    }
}

/// Errors of the render-target model and of the backend that executes it.
#[derive(Debug, PartialEq, Eq)]
pub enum GlError {
    /// The backend rejected an image request (size out of range, or no object
    /// handle left to issue).
    AllocationFailed,
    /// The attachment combination of the framebuffer with this handle was
    /// rejected by the backend.
    FramebufferNotComplete(usize),
    /// A draw would sample a texture that has been deleted (for instance one
    /// that was replaced by a resize and never re-linked).
    StaleTexture(usize),
    /// A uniform block with this name does not exist in the given program.
    UniformInvalidIndex(String, usize),
    /// A stage of the given program failed to compile or link.
    ShaderCompileError(ShaderCompileType, usize, String),
    /// Reading a shader source failed.
    Io(String),
}

} // verus!
