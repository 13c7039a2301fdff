//! Shader sources and the record of a created shader module.

use vstd::prelude::*;

verus! {

/// A shader source. The entry point for the vertex stage is `vs_main` and
/// for the fragment stage `fs_main`.
#[derive(Debug, Clone)]
pub enum ShaderFile {
    /// Textual shader source in the cross-platform shading language.
    Wgsl(&'static str),
    /// A precompiled binary shader blob.
    Spirv(&'static [u8]),
}

/// The record of a shader module: the source it was created from and its
/// debug name. The native module compiled from the source lives with the
/// unverified adapter.
#[derive(Debug, Clone)]
pub struct Shader {
    /// The source handed to the native compiler.
    pub file: ShaderFile,
    /// Debug name of the module.
    pub name: Option<String>,
}

} // verus!
