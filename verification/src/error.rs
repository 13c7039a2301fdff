//! Setup-time and precondition errors.

use vstd::prelude::*;

verus! {

/// Errors surfaced by the painter layer.
#[derive(Debug, Clone, PartialEq, Eq, Structural)]
pub enum ParrotError {
    /// No compatible graphics adapter was found at setup time.
    NoAdaptersFound,
    /// The native device could not be created at setup time.
    RequestDeviceError,
    /// A binding group was built with a resource count different from the
    /// slot count its layout declares.
    BindingSizeMismatch { expected: usize, actual: usize },
}

impl ParrotError {
    /// A short description of the error.
    pub fn message(&self) -> (m: &'static str)
        ensures
            m@ == self.spec_message(),
    {
        match self {
            ParrotError::NoAdaptersFound => "Suitable graphics adapter was not found",
            ParrotError::RequestDeviceError => "Device creation error",
            ParrotError::BindingSizeMismatch { .. } => "Layout slot count doesn't match bindings",
        }
    }

    /// The text [`ParrotError::message`] returns.
    pub open spec fn spec_message(self) -> Seq<char> {
        match self {
            ParrotError::NoAdaptersFound => "Suitable graphics adapter was not found"@,
            ParrotError::RequestDeviceError => "Device creation error"@,
            ParrotError::BindingSizeMismatch { .. } => "Layout slot count doesn't match bindings"@,
        }
    }
}

/// Errors of the scene layer's texture registry.
#[derive(Debug, Clone, PartialEq, Eq, Structural)]
pub enum EguiBackendError {
    /// A texture id was not found in the registry.
    UnknownTextureId(u64),
}

} // verus!
