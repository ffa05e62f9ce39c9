//! Shader modules.
//!
//! A shader module is a thin wrapper around pre-compiled shader bytecode
//! and its declared stage.  Compilation from a high-level shading language
//! happens outside this layer: the module is handed finished bytecode and
//! an entry stage, and is only consumed when a pipeline is created.

use vstd::prelude::*;

verus! {

/// The stage a shader runs in.
#[derive(Debug, Clone, Copy, PartialEq, Eq, Structural)]
pub enum ShaderType {
    Vertex,
    Fragment,
    Compute,
}

/// The set of stages a shader-visible resource is used in.
#[derive(Debug, Clone, Copy, PartialEq, Eq, Structural)]
pub enum ShaderStages {
    /// The resource is visible to the vertex stage only.
    Vertex,
    /// The resource is visible to the fragment stage only.
    Fragment,
    /// The resource is visible to the compute stage only.
    Compute,
    /// The resource is visible to every stage.
    All,
}

/// A shader module: pre-compiled bytecode plus its declared stage. The
/// module is only needed until the pipeline using it is created.
pub struct ShaderModule {
    /// The stage the module was declared for.
    pub kind: ShaderType,
    /// The bytecode of the module.
    pub bytecode: Vec<u32>,
}

impl ShaderModule {
    /// Wrap pre-compiled bytecode into a shader module for the given
    /// stage. The bytecode must not be empty.
    pub fn from_bytecode(kind: ShaderType, bytecode: Vec<u32>) -> (r: Self)
        requires
            bytecode@.len() >= 1,
        ensures
            r.kind == kind,
            r.bytecode@ == bytecode@,
    {
        Self { kind, bytecode }
    }

    /// Returns the stage the module was declared for.
    pub fn kind(&self) -> (r: ShaderType)
        ensures
            r == self.kind,
    {
        self.kind
    }
}

} // verus!
