//! The renderer's error type.
use vstd::prelude::*;

verus! {

/// An external library the renderer depends on.
#[allow(non_camel_case_types)]
#[derive(Debug, Clone, Copy, PartialEq, Eq, Structural)]
pub enum Library {
    GLFW,
    OPEN_GL,
}

/// Every failure the renderer can surface: context and settings failures are
/// fatal at startup, per-asset decode failures are recoverable at the model
/// boundary, and GPU resource failures are reported explicitly.
#[allow(non_camel_case_types)]
#[derive(Debug, Clone, Copy, PartialEq, Eq, Structural)]
pub enum ERRUranXError {
    CANNOT_INIT_LIBRARY(Library),
    CANNOT_INIT_SETTINGS,
    RUNTIME_LIBRARY_ERROR(Library),
    ASSET_DECODE_ERROR,
    GPU_RESOURCE_ERROR,
}

impl ERRUranXError {
    /// The message the renderer reports for any of its errors.
    pub fn message(&self) -> (m: &'static str)
        ensures
            m@ == "UranX can't work because We have a critical error."@,
    {
        "UranX can't work because We have a critical error."
    }
}

} // verus!
