//! Errors of context creation and of operations on a live context.
use vstd::prelude::*;

verus! {

/// Why a context could not be created.
#[derive(Clone, Debug, PartialEq, Eq)]
pub enum CreationError {
    OsError(String),
    /// The platform cannot provide the requested display or surface.
    NotSupported(String),
    NoBackendAvailable(String),
    RobustnessNotSupported,
    OpenGlVersionNotSupported,
    NoAvailablePixelFormat,
    PlatformSpecific(String),
    Window(String),
}

/// Why an operation on a live context failed.
#[derive(Clone, Debug, PartialEq, Eq)]
pub enum ContextError {
    OsError(String),
    /// The context, or its surface, was lost.
    ContextLost,
    /// The operation is not available for this kind of context.
    FunctionUnavailable,
}

} // verus!
