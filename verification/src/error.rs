//! The failures that the integration tells apart.
use vstd::prelude::*;

verus! {

/// Why the integration cannot be composed. It is found before startup.
#[derive(Clone, Copy, Debug, PartialEq, Eq, Structural)]
pub enum ConfigError {
    /// No backend was selected.
    NoBackend,
    /// More than one backend was selected.
    MultipleBackends,
}

/// Why startup gave up. None of these is recovered from: without a buffer
/// there is nothing to run.
#[derive(Clone, Copy, Debug, PartialEq, Eq, Structural)]
pub enum InitError {
    /// The host has no primary window.
    NoPrimaryWindow,
    /// The window system does not know the primary window.
    WindowUnresolved,
    /// The platform handle of the window could not be extracted.
    HandleUnavailable,
    /// A size with a zero dimension was asked for.
    ZeroSize { width: u32, height: u32 },
    /// The backend failed to build its context, surface or buffer.
    Construction,
}

impl InitError {
    /// The text that a host aborts with.
    pub fn message(&self) -> (text: &'static str)
        ensures
            text@ == match *self {
                InitError::NoPrimaryWindow => "Expected PrimaryWindow entity"@,
                InitError::WindowUnresolved => "Expected winit window matching PrimaryWindow entity"@,
                InitError::HandleUnavailable => "Expected a raw handle for the window"@,
                InitError::ZeroSize { .. } => "Expected a non-zero width and height"@,
                InitError::Construction => "Failed building framebuffer"@,
            },
    {
        match self {
            InitError::NoPrimaryWindow => "Expected PrimaryWindow entity",
            InitError::WindowUnresolved => "Expected winit window matching PrimaryWindow entity",
            InitError::HandleUnavailable => "Expected a raw handle for the window",
            InitError::ZeroSize { .. } => "Expected a non-zero width and height",
            InitError::Construction => "Failed building framebuffer",
        }
    }
}

/// Maps what the backend's constructor returned to the outcome of startup:
/// the built value, or `Construction` whatever the backend's own error was.
pub fn constructed<T, E>(built: Result<T, E>) -> (outcome: Result<T, InitError>)
    ensures
        built is Ok ==> outcome == Ok::<T, InitError>(built->Ok_0),
        built is Err ==> outcome == Err::<T, InitError>(InitError::Construction),
{
    match built {
        Ok(value) => Ok(value),
        Err(_) => Err(InitError::Construction),
    }
}

/// A failure of one per-frame operation. It is handed to the caller, who
/// decides whether to retry, rebuild or stop.
#[derive(Clone, Copy, Debug, PartialEq, Eq, Structural)]
pub enum FrameError {
    /// A size with a zero dimension was asked for.
    Dimension { width: u32, height: u32 },
    /// The backend refused to resize.
    Resize,
    /// The buffer could not be acquired: the surface is invalid or lost.
    Acquire,
    /// The backend failed to present.
    Present,
}

/// The per-frame operations that reach the backend.
#[derive(Clone, Copy, Debug, PartialEq, Eq, Structural)]
pub enum Operation {
    Resize,
    Acquire,
    Present,
}

impl Operation {
    /// The error that stands for a failure of this operation.
    pub open spec fn failure(self) -> FrameError {
        match self {
            Operation::Resize => FrameError::Resize,
            Operation::Acquire => FrameError::Acquire,
            Operation::Present => FrameError::Present,
        }
    }
}

/// Surfaces what the backend returned from `operation`: its value, or the
/// error that names the operation. Nothing is retried and nothing swallowed.
pub fn surfaced<T, E>(operation: Operation, outcome: Result<T, E>) -> (result: Result<
    T,
    FrameError,
>)
    ensures
        outcome is Ok ==> result == Ok::<T, FrameError>(outcome->Ok_0),
        outcome is Err ==> result == Err::<T, FrameError>(operation.failure()),
{
    match outcome {
        Ok(value) => Ok(value),
        Err(_) => Err(
            match operation {
                Operation::Resize => FrameError::Resize,
                Operation::Acquire => FrameError::Acquire,
                Operation::Present => FrameError::Present,
            },
        ),
    }
}

} // verus!
