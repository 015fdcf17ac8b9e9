//! Client-side display surface manager: handle tables and id counters for
//! compositor surfaces and imported buffers, the double-buffering state
//! machine that keeps a renderer out of the buffer being presented, and the
//! shared-memory sizing that backs each surface's framebuffers.
//!
//! The wire protocol to the compositor and the shared-memory primitives are
//! external collaborators reached through an opaque handle-based interface;
//! the unverified edge performs those calls and hands their outcomes to this
//! library as plain values.

pub mod display;
pub mod error;
pub mod guard;
pub mod mem;

pub use display::BufferInUseQuery;
pub use display::FlipAction;
pub use display::FlipToAction;
pub use display::GpuDisplay;
pub use display::GpuDisplaySurface;
pub use display::SetPositionAction;
pub use display::SurfacePlan;
pub use display::validate_endpoint_path;
pub use error::GpuDisplayError;
pub use error::SysError;
pub use guard::HandleGuard;
pub use mem::FramebufferMemory;
pub use mem::round_up_to_page_size;
