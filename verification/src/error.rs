//! The error taxonomy surfaced to callers of the display connection.

use vstd::prelude::*;

verus! {

/// A raw operating-system error code, as carried by failed shared-memory
/// operations.
#[derive(Clone, Copy, Debug, PartialEq, Eq, Structural)]
pub struct SysError {
    /// The `errno` value reported by the operating system.
    pub errno: i32,
}

/// An error generated by `GpuDisplay`.
#[derive(Clone, Copy, Debug, PartialEq, Eq, Structural)]
pub enum GpuDisplayError {
    /// An internal allocation failed.
    Allocate,
    /// Connecting to the compositor failed.
    Connect,
    /// Creating shared memory failed.
    CreateShm(SysError),
    /// Setting the size of shared memory failed.
    SetSize(SysError),
    /// Failed to create a surface on the compositor.
    CreateSurface,
    /// Failed to import a buffer to the compositor.
    FailedImport,
    /// The surface ID is invalid.
    InvalidSurfaceId,
    /// The path is invalid.
    InvalidPath,
}

impl GpuDisplayError {
    /// The text `describe` returns for each error kind.
    pub open spec fn spec_describe(self) -> Seq<char> {
        match self {
            GpuDisplayError::Allocate => "internal allocation failed"@,
            GpuDisplayError::Connect => "failed to connect to compositor"@,
            GpuDisplayError::CreateShm(_) => "failed to create shared memory"@,
            GpuDisplayError::SetSize(_) => "failed to set size of shared memory"@,
            GpuDisplayError::CreateSurface => "failed to create surface on the compositor"@,
            GpuDisplayError::FailedImport => "failed to import a buffer to the compositor"@,
            GpuDisplayError::InvalidSurfaceId => "invalid surface ID"@,
            GpuDisplayError::InvalidPath => "invalid path"@,
        }
    }

    /// A human-readable description of the error.
    pub fn describe(&self) -> (s: &'static str)
        ensures
            s@ == self.spec_describe(),
    {
        match self {
            GpuDisplayError::Allocate => "internal allocation failed",
            GpuDisplayError::Connect => "failed to connect to compositor",
            GpuDisplayError::CreateShm(_) => "failed to create shared memory",
            GpuDisplayError::SetSize(_) => "failed to set size of shared memory",
            GpuDisplayError::CreateSurface => "failed to create surface on the compositor",
            GpuDisplayError::FailedImport => "failed to import a buffer to the compositor",
            GpuDisplayError::InvalidSurfaceId => "invalid surface ID",
            GpuDisplayError::InvalidPath => "invalid path",
        }
    }
}

} // verus!
