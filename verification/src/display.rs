//! The display connection: handle tables and id counters for surfaces and
//! imported buffers, and the double-buffering state machine.
//!
//! The native compositor-client library is an external collaborator reached
//! through opaque handles. The caller performs each native call and hands
//! its outcome to this module as a plain value; every function here states
//! exactly how that outcome decides the connection's next state and result.

use std::collections::HashMap;
use vstd::prelude::*;

use crate::error::GpuDisplayError;
use crate::guard::HandleGuard;
use crate::mem::BUFFER_COUNT;
use crate::mem::BYTES_PER_PIXEL;
use crate::mem::FramebufferMemory;
use crate::mem::PAGE_SIZE;
use crate::mem::lemma_round_up_to_page_size_properties;
use crate::mem::round_up_to_page_size;
use crate::mem::spec_round_up_to_page_size;

verus! {

broadcast use vstd::std_specs::hash::group_hash_axioms;

/// One surface owned by the connection: its native handle, the geometry of
/// its shared double-buffer region, and the index of the buffer most
/// recently presented.
#[derive(Clone, Copy, Debug, PartialEq, Eq, Structural)]
pub struct GpuDisplaySurface {
    /// Native surface handle.
    pub surface: u64,
    /// Size in bytes of a single framebuffer, not of the whole region.
    pub buffer_size: usize,
    /// Index of the currently presented buffer, always below `BUFFER_COUNT`.
    pub buffer_index: usize,
    /// Size in bytes of the whole mapped region backing the framebuffers.
    pub total_size: usize,
}

impl GpuDisplaySurface {
    /// The layout invariant every registered surface satisfies: the buffer
    /// index is in range and the region holds all buffers, page-aligned.
    pub open spec fn wf(self) -> bool {
        &&& self.buffer_index < BUFFER_COUNT
        &&& self.buffer_size * BUFFER_COUNT <= self.total_size
        &&& (self.total_size as int) % (PAGE_SIZE as int) == 0
    }
}

/// The abstract state of a display connection: the context handle and
/// whether it is still owned, the two handle tables, and the id counters.
pub ghost struct DisplayView {
    /// Native context handle.
    pub ctx: u64,
    /// Whether the context has not yet been yielded for destruction.
    pub ctx_armed: bool,
    /// Import id -> native dmabuf handle.
    pub dmabufs: Map<u32, u64>,
    /// The id the next successful import will get.
    pub dmabuf_next_id: u32,
    /// Surface id -> surface state.
    pub surfaces: Map<u32, GpuDisplaySurface>,
    /// The id the next successful surface creation will get.
    pub surface_next_id: u32,
}

impl DisplayView {
    /// The two states agree on the context handle and its ownership.
    pub open spec fn same_ctx(self, other: DisplayView) -> bool {
        &&& self.ctx == other.ctx
        &&& self.ctx_armed == other.ctx_armed
    }

    /// The two states agree on the import table and its id counter.
    pub open spec fn same_imports(self, other: DisplayView) -> bool {
        &&& self.dmabufs == other.dmabufs
        &&& self.dmabuf_next_id == other.dmabuf_next_id
    }

    /// The two states agree on the surface table and its id counter.
    pub open spec fn same_surfaces(self, other: DisplayView) -> bool {
        &&& self.surfaces == other.surfaces
        &&& self.surface_next_id == other.surface_next_id
    }

    /// The two states are identical.
    pub open spec fn same(self, other: DisplayView) -> bool {
        &&& self.same_ctx(other)
        &&& self.same_imports(other)
        &&& self.same_surfaces(other)
    }

    /// The connection invariant: every issued id is below its counter (so
    /// ids are never reused) and every registered surface is well-formed.
    pub open spec fn wf(self) -> bool {
        &&& forall|id: u32| #[trigger] self.surfaces.contains_key(id)
            ==> id < self.surface_next_id && self.surfaces[id].wf()
        &&& forall|id: u32| #[trigger] self.dmabufs.contains_key(id)
            ==> id < self.dmabuf_next_id
    }
}

/// Everything `create_surface` decides before the native surface exists:
/// the resolved parent handle and the sizes of the shared-memory region the
/// caller must allocate and map.
#[derive(Clone, Copy, Debug, PartialEq, Eq, Structural)]
pub struct SurfacePlan {
    /// Native handle of the parent surface, if a parent was requested.
    pub parent: Option<u64>,
    /// Width of the surface in pixels.
    pub width: u32,
    /// Height of the surface in pixels.
    pub height: u32,
    /// Bytes per row of pixels.
    pub row_size: u32,
    /// Bytes in one framebuffer.
    pub fb_size: u32,
    /// Bytes in the whole shared-memory region, page-aligned.
    pub total_size: usize,
}

impl SurfacePlan {
    /// The sizes are exactly those the fixed pixel format dictates.
    pub open spec fn wf(self) -> bool {
        &&& self.row_size == self.width * BYTES_PER_PIXEL
        &&& self.fb_size == self.row_size * self.height
        &&& self.total_size == spec_round_up_to_page_size(self.fb_size * BUFFER_COUNT)
    }
}

/// The native present call the caller must make after `flip`: present
/// buffer `index` of native surface `surface`.
#[derive(Clone, Copy, Debug, PartialEq, Eq, Structural)]
pub struct FlipAction {
    /// Native surface handle to present on.
    pub surface: u64,
    /// Index of the buffer now presented.
    pub index: usize,
}

/// The native query the caller must make for `next_buffer_in_use`: ask
/// whether buffer `index` of native surface `surface` is still held by the
/// compositor.
#[derive(Clone, Copy, Debug, PartialEq, Eq, Structural)]
pub struct BufferInUseQuery {
    /// Native surface handle to query.
    pub surface: u64,
    /// Index of the buffer to query: the one `framebuffer_memory` hands out.
    pub index: usize,
}

/// The present call `flip_to` asks for, naming both native handles.
#[derive(Clone, Copy, Debug, PartialEq, Eq, Structural)]
pub struct FlipToAction {
    /// Native surface handle to present on.
    pub surface: u64,
    /// Native dmabuf handle to present.
    pub dmabuf: u64,
}

/// The native call the caller must make after `set_position`: move native
/// surface `surface` to `(x, y)` relative to its parent.
#[derive(Clone, Copy, Debug, PartialEq, Eq, Structural)]
pub struct SetPositionAction {
    /// Native surface handle to move.
    pub surface: u64,
    /// Horizontal offset in pixels relative to the parent surface.
    pub x: u32,
    /// Vertical offset in pixels relative to the parent surface.
    pub y: u32,
}

/// Whether `path` can be handed to the native connection layer: it must be
/// representable as a null-terminated string, so it may hold no interior
/// null byte.
pub open spec fn spec_path_valid(path: Seq<u8>) -> bool {
    forall|i: int| 0 <= i < path.len() ==> path[i] != 0
}

/// Checks that a compositor endpoint path is representable as a
/// null-terminated string: rejects exactly the paths holding a null byte.
pub fn validate_endpoint_path(path: &[u8]) -> (r: Result<(), GpuDisplayError>)
    ensures
        r is Ok <==> spec_path_valid(path@),
        r is Err ==> r == Err::<(), GpuDisplayError>(GpuDisplayError::InvalidPath),
{
    let mut i: usize = 0;
    while i < path.len()
        invariant
            0 <= i <= path.len(),
            forall|j: int| 0 <= j < i ==> path@[j] != 0,
        decreases path.len() - i,
    {
        if path[i] == 0 {
            return Err(GpuDisplayError::InvalidPath);
        }
        i += 1;
    }
    Ok(())
}

/// A connection to the compositor and associated collection of state.
///
/// The caller polls the connection's file descriptor (reached through the
/// native context handle) and drains native events when it is readable.
pub struct GpuDisplay {
    ctx: HandleGuard,
    dmabufs: HashMap<u32, u64>,
    dmabuf_next_id: u32,
    surfaces: HashMap<u32, GpuDisplaySurface>,
    surface_next_id: u32,
}

impl View for GpuDisplay {
    type V = DisplayView;

    closed spec fn view(&self) -> DisplayView {
        DisplayView {
            ctx: self.ctx.handle,
            ctx_armed: self.ctx.armed,
            dmabufs: self.dmabufs@,
            dmabuf_next_id: self.dmabuf_next_id,
            surfaces: self.surfaces@,
            surface_next_id: self.surface_next_id,
        }
    }
}

/// Invariant preservation for an operation that leaves both tables and
/// both counters as they were.
proof fn lemma_wf_unchanged_tables(pre: DisplayView, post: DisplayView)
    requires
        pre.wf(),
        post.same_imports(pre),
        post.same_surfaces(pre),
    ensures
        post.wf(),
{
    assert forall|id: u32| #[trigger] post.surfaces.contains_key(id) implies id
        < post.surface_next_id && post.surfaces[id].wf() by {
        assert(pre.surfaces.contains_key(id));
    }
    assert forall|id: u32| #[trigger] post.dmabufs.contains_key(id) implies id
        < post.dmabuf_next_id by {
        assert(pre.dmabufs.contains_key(id));
    }
}

/// Invariant preservation when one import entry is removed.
proof fn lemma_wf_after_import_removal(pre: DisplayView, post: DisplayView, removed: u32)
    requires
        pre.wf(),
        post.dmabufs == pre.dmabufs.remove(removed),
        post.dmabuf_next_id == pre.dmabuf_next_id,
        post.same_surfaces(pre),
    ensures
        post.wf(),
{
    assert forall|id: u32| #[trigger] post.surfaces.contains_key(id) implies id
        < post.surface_next_id && post.surfaces[id].wf() by {
        assert(pre.surfaces.contains_key(id));
    }
    assert forall|id: u32| #[trigger] post.dmabufs.contains_key(id) implies id
        < post.dmabuf_next_id by {
        assert(pre.dmabufs.contains_key(id));
    }
}

/// Invariant preservation when one surface entry is removed.
proof fn lemma_wf_after_surface_removal(pre: DisplayView, post: DisplayView, removed: u32)
    requires
        pre.wf(),
        post.surfaces == pre.surfaces.remove(removed),
        post.surface_next_id == pre.surface_next_id,
        post.same_imports(pre),
    ensures
        post.wf(),
{
    assert forall|id: u32| #[trigger] post.surfaces.contains_key(id) implies id
        < post.surface_next_id && post.surfaces[id].wf() by {
        assert(pre.surfaces.contains_key(id));
    }
    assert forall|id: u32| #[trigger] post.dmabufs.contains_key(id) implies id
        < post.dmabuf_next_id by {
        assert(pre.dmabufs.contains_key(id));
    }
}

/// Invariant preservation when an import entry is stored under an id the
/// counter keeps ahead of.
proof fn lemma_wf_after_import_insert(pre: DisplayView, post: DisplayView, id: u32, handle: u64)
    requires
        pre.wf(),
        post.dmabufs == pre.dmabufs.insert(id, handle),
        pre.dmabuf_next_id <= post.dmabuf_next_id,
        id < post.dmabuf_next_id,
        post.same_surfaces(pre),
    ensures
        post.wf(),
{
    assert forall|other: u32| #[trigger] post.surfaces.contains_key(other) implies other
        < post.surface_next_id && post.surfaces[other].wf() by {
        assert(pre.surfaces.contains_key(other));
    }
    assert forall|other: u32| #[trigger] post.dmabufs.contains_key(other) implies other
        < post.dmabuf_next_id by {
        if other != id {
            assert(pre.dmabufs.contains_key(other));
        }
    }
}

/// Invariant preservation when a well-formed surface entry is stored under
/// an id the counter keeps ahead of.
proof fn lemma_wf_after_surface_insert(
    pre: DisplayView,
    post: DisplayView,
    id: u32,
    s: GpuDisplaySurface,
)
    requires
        pre.wf(),
        s.wf(),
        post.surfaces == pre.surfaces.insert(id, s),
        pre.surface_next_id <= post.surface_next_id,
        id < post.surface_next_id,
        post.same_imports(pre),
    ensures
        post.wf(),
{
    assert forall|other: u32| #[trigger] post.surfaces.contains_key(other) implies other
        < post.surface_next_id && post.surfaces[other].wf() by {
        if other != id {
            assert(pre.surfaces.contains_key(other));
        }
    }
    assert forall|other: u32| #[trigger] post.dmabufs.contains_key(other) implies other
        < post.dmabuf_next_id by {
        assert(pre.dmabufs.contains_key(other));
    }
}

impl GpuDisplay {
    /// The connection invariant, stated on the abstract state.
    pub open spec fn wf(self) -> bool {
        self@.wf()
    }

    /// Opens a fresh connection to the compositor.
    ///
    /// The caller performs the native context allocation and, when that and
    /// the path check succeed, the handshake against `endpoint_path`; it
    /// reports the outcomes here: `ctx` is the allocated context handle if
    /// any, `setup_ok` whether the handshake succeeded (`false` when it was
    /// never attempted). On success the connection starts with empty handle
    /// tables and both id counters at zero.
    pub fn new(ctx: Option<u64>, endpoint_path: &[u8], setup_ok: bool) -> (r: Result<
        GpuDisplay,
        GpuDisplayError,
    >)
        ensures
            r is Ok <==> (ctx is Some && spec_path_valid(endpoint_path@) && setup_ok),
            ctx is None ==> r == Err::<GpuDisplay, GpuDisplayError>(GpuDisplayError::Allocate),
            (ctx is Some && !spec_path_valid(endpoint_path@)) ==> r == Err::<
                GpuDisplay,
                GpuDisplayError,
            >(GpuDisplayError::InvalidPath),
            (ctx is Some && spec_path_valid(endpoint_path@) && !setup_ok) ==> r == Err::<
                GpuDisplay,
                GpuDisplayError,
            >(GpuDisplayError::Connect),
            r matches Ok(d) ==> ({
                &&& d.wf()
                &&& d@.ctx == ctx->0
                &&& d@.ctx_armed
                &&& d@.dmabufs == Map::<u32, u64>::empty()
                &&& d@.dmabuf_next_id == 0
                &&& d@.surfaces == Map::<u32, GpuDisplaySurface>::empty()
                &&& d@.surface_next_id == 0
            }),
    {
        let raw = match ctx {
            Some(h) => h,
            None => {
                return Err(GpuDisplayError::Allocate);
            },
        };
        if let Err(e) = validate_endpoint_path(endpoint_path) {
            return Err(e);
        }
        if !setup_ok {
            return Err(GpuDisplayError::Connect);
        }
        Ok(
            GpuDisplay {
                ctx: HandleGuard::new(raw),
                dmabufs: HashMap::new(),
                dmabuf_next_id: 0,
                surfaces: HashMap::new(),
                surface_next_id: 0,
            },
        )
    }

    /// The native context handle, for the caller's native calls against the
    /// connection: event dispatch and file-descriptor polling.
    pub fn ctx(&self) -> (r: u64)
        ensures
            r == self@.ctx,
    {
        self.ctx.raw()
    }

    /// Yields the native context handle for destruction, exactly once: the
    /// first call returns it, every later call returns `None`, so teardown
    /// never destroys the context twice even if triggered twice.
    pub fn take_ctx(&mut self) -> (r: Option<u64>)
        requires
            old(self).wf(),
        ensures
            final(self).wf(),
            old(self)@.ctx_armed ==> r == Some(old(self)@.ctx),
            !old(self)@.ctx_armed ==> r is None,
            !final(self)@.ctx_armed,
            final(self)@.ctx == old(self)@.ctx,
            final(self)@.same_imports(old(self)@),
            final(self)@.same_surfaces(old(self)@),
    {
        let r = self.ctx.take();
        proof {
            lemma_wf_unchanged_tables(old(self)@, self@);
        }
        r
    }

    /// The id the next successful import will get; ids never exceed it.
    pub fn dmabuf_next_id(&self) -> (r: u32)
        ensures
            r == self@.dmabuf_next_id,
    {
        self.dmabuf_next_id
    }

    /// The id the next successful surface creation will get; ids never
    /// exceed it.
    pub fn surface_next_id(&self) -> (r: u32)
        ensures
            r == self@.surface_next_id,
    {
        self.surface_next_id
    }

    /// Imports a dmabuf to the compositor for use as a surface buffer and
    /// returns a handle to it.
    ///
    /// The caller performs the native import from the raw buffer description
    /// and hands its outcome here: `dmabuf` is the native handle, or `None`
    /// if the native layer rejected the import. On success the handle is
    /// stored under the next unused import id, which is returned.
    pub fn import_dmabuf(&mut self, dmabuf: Option<u64>) -> (r: Result<u32, GpuDisplayError>)
        requires
            old(self).wf(),
            old(self)@.dmabuf_next_id < u32::MAX,
        ensures
            final(self).wf(),
            dmabuf is None ==> ({
                &&& r == Err::<u32, GpuDisplayError>(GpuDisplayError::FailedImport)
                &&& final(self)@.same(old(self)@)
            }),
            dmabuf matches Some(handle) ==> ({
                let id = old(self)@.dmabuf_next_id;
                &&& r == Ok::<u32, GpuDisplayError>(id)
                &&& !old(self)@.dmabufs.contains_key(id)
                &&& final(self)@.dmabufs == old(self)@.dmabufs.insert(id, handle)
                &&& final(self)@.dmabuf_next_id == id + 1
                &&& final(self)@.same_surfaces(old(self)@)
                &&& final(self)@.same_ctx(old(self)@)
            }),
    {
        let handle = match dmabuf {
            Some(h) => h,
            None => {
                return Err(GpuDisplayError::FailedImport);
            },
        };
        let next_id = self.dmabuf_next_id;
        self.dmabufs.insert(next_id, handle);
        self.dmabuf_next_id = next_id + 1;
        proof {
            lemma_wf_after_import_insert(old(self)@, self@, next_id, handle);
        }
        Ok(next_id)
    }

    /// Releases a previously imported dmabuf identified by the given handle.
    ///
    /// Returns the native handle the caller must now destroy. A missing id
    /// is a silent no-op, not an error: the state is left untouched and
    /// `None` is returned, so releasing an already-released id is harmless.
    pub fn release_import(&mut self, import_id: u32) -> (r: Option<u64>)
        requires
            old(self).wf(),
        ensures
            final(self).wf(),
            final(self)@.dmabufs == old(self)@.dmabufs.remove(import_id),
            final(self)@.dmabuf_next_id == old(self)@.dmabuf_next_id,
            final(self)@.same_surfaces(old(self)@),
            final(self)@.same_ctx(old(self)@),
            old(self)@.dmabufs.contains_key(import_id) ==> r == Some(
                old(self)@.dmabufs[import_id],
            ),
            !old(self)@.dmabufs.contains_key(import_id) ==> ({
                &&& r is None
                &&& final(self)@.same(old(self)@)
            }),
    {
        let r = self.dmabufs.remove(&import_id);
        proof {
            lemma_wf_after_import_removal(old(self)@, self@, import_id);
            if !old(self)@.dmabufs.contains_key(import_id) {
                assert(old(self)@.dmabufs.remove(import_id) =~= old(self)@.dmabufs);
            }
        }
        r
    }

    /// Decides everything `create_surface` needs before the native surface
    /// can exist: resolves the optional parent id to its native handle
    /// (failing with `InvalidSurfaceId` for an unknown parent, before any
    /// region is allocated) and computes the row, framebuffer and
    /// page-aligned region sizes for the fixed four-byte pixel format.
    pub fn create_surface_plan(
        &self,
        parent_surface_id: Option<u32>,
        width: u32,
        height: u32,
    ) -> (r: Result<SurfacePlan, GpuDisplayError>)
        requires
            self.wf(),
            width * BYTES_PER_PIXEL <= u32::MAX,
            width * BYTES_PER_PIXEL * height <= u32::MAX,
            width * BYTES_PER_PIXEL * height * BUFFER_COUNT + PAGE_SIZE - 1 <= usize::MAX,
        ensures
            r is Ok <==> (parent_surface_id matches Some(p) ==> self@.surfaces.contains_key(p)),
            r is Err ==> r == Err::<SurfacePlan, GpuDisplayError>(GpuDisplayError::InvalidSurfaceId),
            r matches Ok(plan) ==> ({
                &&& plan.wf()
                &&& plan.width == width
                &&& plan.height == height
                &&& plan.row_size == width * BYTES_PER_PIXEL
                &&& plan.fb_size == width * BYTES_PER_PIXEL * height
                &&& plan.total_size == spec_round_up_to_page_size(
                    width * BYTES_PER_PIXEL * height * BUFFER_COUNT,
                )
                &&& plan.total_size >= width * BYTES_PER_PIXEL * height * BUFFER_COUNT
                &&& (plan.total_size as int) % (PAGE_SIZE as int) == 0
                &&& (match parent_surface_id {
                    Some(p) => plan.parent == Some(self@.surfaces[p].surface),
                    None => plan.parent is None,
                })
            }),
    {
        let parent: Option<u64> = match parent_surface_id {
            Some(id) => match self.surfaces.get(&id) {
                Some(s) => Some(s.surface),
                None => {
                    return Err(GpuDisplayError::InvalidSurfaceId);
                },
            },
            None => None,
        };
        let row_size = width * BYTES_PER_PIXEL;
        let fb_size = row_size * height;
        let total_size = round_up_to_page_size((fb_size as usize) * BUFFER_COUNT);
        proof {
            lemma_round_up_to_page_size_properties(fb_size * BUFFER_COUNT);
        }
        Ok(SurfacePlan { parent, width, height, row_size, fb_size, total_size })
    }

    /// Creates a surface on the compositor as either a top level window or
    /// a child of another surface, returning a handle to the new surface.
    ///
    /// The caller has allocated and mapped the shared-memory region `plan`
    /// sizes, asked the native layer for a surface bound to it, and hands
    /// the outcome here: `surface` is the native handle, or `None` if the
    /// native layer rejected the creation. On success the surface starts at
    /// buffer index zero and is stored under the next unused surface id,
    /// which is returned; ids are issued strictly increasing and never
    /// reused.
    pub fn create_surface(&mut self, plan: &SurfacePlan, surface: Option<u64>) -> (r: Result<
        u32,
        GpuDisplayError,
    >)
        requires
            old(self).wf(),
            plan.wf(),
            old(self)@.surface_next_id < u32::MAX,
        ensures
            final(self).wf(),
            surface is None ==> ({
                &&& r == Err::<u32, GpuDisplayError>(GpuDisplayError::CreateSurface)
                &&& final(self)@.same(old(self)@)
            }),
            surface matches Some(handle) ==> ({
                let id = old(self)@.surface_next_id;
                &&& r == Ok::<u32, GpuDisplayError>(id)
                &&& !old(self)@.surfaces.contains_key(id)
                &&& final(self)@.surfaces == old(self)@.surfaces.insert(
                    id,
                    (GpuDisplaySurface {
                        surface: handle,
                        buffer_size: plan.fb_size as usize,
                        buffer_index: 0,
                        total_size: plan.total_size,
                    }),
                )
                &&& final(self)@.surface_next_id == id + 1
                &&& final(self)@.same_imports(old(self)@)
                &&& final(self)@.same_ctx(old(self)@)
            }),
    {
        let handle = match surface {
            Some(h) => h,
            None => {
                return Err(GpuDisplayError::CreateSurface);
            },
        };
        let state = GpuDisplaySurface {
            surface: handle,
            buffer_size: plan.fb_size as usize,
            buffer_index: 0,
            total_size: plan.total_size,
        };
        proof {
            lemma_round_up_to_page_size_properties(plan.fb_size * BUFFER_COUNT);
            assert(state.wf());
        }
        let next_id = self.surface_next_id;
        self.surfaces.insert(next_id, state);
        self.surface_next_id = next_id + 1;
        proof {
            lemma_wf_after_surface_insert(old(self)@, self@, next_id, state);
        }
        Ok(next_id)
    }

    /// Releases a previously created surface identified by the given handle.
    ///
    /// Returns the native handle the caller must now destroy. A missing id
    /// is a silent no-op, not an error: the state is left untouched and
    /// `None` is returned, so releasing an already-released id is harmless.
    pub fn release_surface(&mut self, surface_id: u32) -> (r: Option<u64>)
        requires
            old(self).wf(),
        ensures
            final(self).wf(),
            final(self)@.surfaces == old(self)@.surfaces.remove(surface_id),
            final(self)@.surface_next_id == old(self)@.surface_next_id,
            final(self)@.same_imports(old(self)@),
            final(self)@.same_ctx(old(self)@),
            old(self)@.surfaces.contains_key(surface_id) ==> r == Some(
                old(self)@.surfaces[surface_id].surface,
            ),
            !old(self)@.surfaces.contains_key(surface_id) ==> ({
                &&& r is None
                &&& final(self)@.same(old(self)@)
            }),
    {
        let r = self.surfaces.remove(&surface_id);
        proof {
            lemma_wf_after_surface_removal(old(self)@, self@, surface_id);
            if !old(self)@.surfaces.contains_key(surface_id) {
                assert(old(self)@.surfaces.remove(surface_id) =~= old(self)@.surfaces);
            }
        }
        match r {
            Some(s) => Some(s.surface),
            None => None,
        }
    }

    /// Gets the coordinates of an unused framebuffer for the identified
    /// surface: the buffer after the currently presented one, so never the
    /// buffer the compositor may still be displaying. Returns `None` for an
    /// unknown id.
    pub fn framebuffer_memory(&self, surface_id: u32) -> (r: Option<FramebufferMemory>)
        requires
            self.wf(),
        ensures
            r is Some <==> self@.surfaces.contains_key(surface_id),
            r matches Some(m) ==> ({
                let s = self@.surfaces[surface_id];
                &&& m.offset == ((s.buffer_index + 1) % (BUFFER_COUNT as int)) * s.buffer_size
                &&& m.len == s.buffer_size
                &&& m.offset + m.len <= s.total_size
            }),
    {
        match self.surfaces.get(&surface_id) {
            Some(s) => {
                proof {
                    assert(self@.surfaces.contains_key(surface_id));
                    assert(self@.surfaces[surface_id] == *s);
                    assert(s.wf());
                    vstd::arithmetic::div_mod::lemma_mod_bound(
                        s.buffer_index + 1,
                        BUFFER_COUNT as int,
                    );
                }
                let candidate = (s.buffer_index + 1) % BUFFER_COUNT;
                proof {
                    vstd::arithmetic::mul::lemma_mul_inequality(
                        candidate as int,
                        (BUFFER_COUNT - 1) as int,
                        s.buffer_size as int,
                    );
                }
                let offset = candidate * s.buffer_size;
                Some(FramebufferMemory { offset, len: s.buffer_size })
            },
            None => None,
        }
    }

    /// Commits any pending state for the identified surface.
    ///
    /// Returns the native surface handle the caller must commit, or `None`
    /// for an unknown id (a no-op). The buffer index is untouched.
    pub fn commit(&self, surface_id: u32) -> (r: Option<u64>)
        ensures
            self@.surfaces.contains_key(surface_id) ==> r == Some(
                self@.surfaces[surface_id].surface,
            ),
            !self@.surfaces.contains_key(surface_id) ==> r is None,
    {
        match self.surfaces.get(&surface_id) {
            Some(s) => Some(s.surface),
            None => None,
        }
    }

    /// Tells which buffer the compositor must be asked about to learn
    /// whether the next framebuffer is still in use: the queried index is
    /// exactly the one `framebuffer_memory` points at. Returns `None` for
    /// an unknown id (the caller reports the buffer as not in use).
    pub fn next_buffer_in_use(&self, surface_id: u32) -> (r: Option<BufferInUseQuery>)
        requires
            self.wf(),
        ensures
            r is Some <==> self@.surfaces.contains_key(surface_id),
            r matches Some(q) ==> ({
                let s = self@.surfaces[surface_id];
                &&& q.surface == s.surface
                &&& q.index == (s.buffer_index + 1) % (BUFFER_COUNT as int)
            }),
    {
        match self.surfaces.get(&surface_id) {
            Some(s) => {
                proof {
                    assert(self@.surfaces.contains_key(surface_id));
                    assert(self@.surfaces[surface_id] == *s);
                    assert(s.wf());
                }
                let candidate = (s.buffer_index + 1) % BUFFER_COUNT;
                Some(BufferInUseQuery { surface: s.surface, index: candidate })
            },
            None => None,
        }
    }

    /// Changes the visible contents of the identified surface to the
    /// contents of the framebuffer last returned by `framebuffer_memory`:
    /// advances the buffer index to that buffer and returns the present
    /// action the caller must perform. This is the only operation that
    /// changes a surface's buffer index. Returns `None` for an unknown id
    /// (a no-op).
    pub fn flip(&mut self, surface_id: u32) -> (r: Option<FlipAction>)
        requires
            old(self).wf(),
        ensures
            final(self).wf(),
            !old(self)@.surfaces.contains_key(surface_id) ==> ({
                &&& r is None
                &&& final(self)@.same(old(self)@)
            }),
            old(self)@.surfaces.contains_key(surface_id) ==> ({
                let s = old(self)@.surfaces[surface_id];
                let new_index = (s.buffer_index + 1) % (BUFFER_COUNT as int);
                &&& r == Some((FlipAction { surface: s.surface, index: new_index as usize }))
                &&& final(self)@.surfaces == old(self)@.surfaces.insert(
                    surface_id,
                    (GpuDisplaySurface { buffer_index: new_index as usize, ..s }),
                )
                &&& final(self)@.surface_next_id == old(self)@.surface_next_id
                &&& final(self)@.same_imports(old(self)@)
                &&& final(self)@.same_ctx(old(self)@)
            }),
    {
        match self.surfaces.remove(&surface_id) {
            Some(s) => {
                proof {
                    assert(old(self)@.surfaces.contains_key(surface_id));
                    assert(old(self)@.surfaces[surface_id] == s);
                    assert(s.wf());
                    vstd::arithmetic::div_mod::lemma_mod_bound(
                        s.buffer_index + 1,
                        BUFFER_COUNT as int,
                    );
                }
                let new_index = (s.buffer_index + 1) % BUFFER_COUNT;
                let updated = GpuDisplaySurface { buffer_index: new_index, ..s };
                self.surfaces.insert(surface_id, updated);
                proof {
                    assert(self@.surfaces =~= old(self)@.surfaces.insert(surface_id, updated));
                    lemma_wf_after_surface_insert(old(self)@, self@, surface_id, updated);
                }
                Some(FlipAction { surface: s.surface, index: new_index })
            },
            None => {
                proof {
                    lemma_wf_after_surface_removal(old(self)@, self@, surface_id);
                    assert(old(self)@.surfaces.remove(surface_id) =~= old(self)@.surfaces);
                }
                None
            },
        }
    }

    /// Changes the visible contents of the identified surface to that of
    /// the identified imported buffer; the internal buffer index is
    /// untouched. Returns the present action the caller must perform, or
    /// `None` if either id is unknown: that is the deliberate silent no-op
    /// for ids that must already be valid by construction.
    pub fn flip_to(&self, surface_id: u32, import_id: u32) -> (r: Option<FlipToAction>)
        ensures
            r is Some <==> (self@.surfaces.contains_key(surface_id)
                && self@.dmabufs.contains_key(import_id)),
            r matches Some(a) ==> ({
                &&& a.surface == self@.surfaces[surface_id].surface
                &&& a.dmabuf == self@.dmabufs[import_id]
            }),
    {
        match self.surfaces.get(&surface_id) {
            Some(s) => match self.dmabufs.get(&import_id) {
                Some(d) => Some(FlipToAction { surface: s.surface, dmabuf: *d }),
                None => None,
            },
            None => None,
        }
    }

    /// Tells which native surface must be asked whether the compositor
    /// requested it to close. Returns `None` for an unknown or released id,
    /// which the caller reports as `false`, not as an error.
    pub fn close_requested(&self, surface_id: u32) -> (r: Option<u64>)
        ensures
            self@.surfaces.contains_key(surface_id) ==> r == Some(
                self@.surfaces[surface_id].surface,
            ),
            !self@.surfaces.contains_key(surface_id) ==> r is None,
    {
        match self.surfaces.get(&surface_id) {
            Some(s) => Some(s.surface),
            None => None,
        }
    }

    /// Sets the position of the identified subsurface relative to its
    /// parent; the change becomes visible after the parent's next commit.
    /// Returns the move the caller must hand to the native layer, or `None`
    /// for an unknown id (a no-op).
    pub fn set_position(&self, surface_id: u32, x: u32, y: u32) -> (r: Option<SetPositionAction>)
        ensures
            self@.surfaces.contains_key(surface_id) ==> r == Some(
                (SetPositionAction { surface: self@.surfaces[surface_id].surface, x, y }),
            ),
            !self@.surfaces.contains_key(surface_id) ==> r is None,
    {
        match self.surfaces.get(&surface_id) {
            Some(s) => Some(SetPositionAction { surface: s.surface, x, y }),
            None => None,
        }
    }
}

/// Law: the framebuffer handed out for writing is never the buffer being
/// presented. For any well-formed surface with buffers of nonzero size, the
/// candidate index that `framebuffer_memory` and `next_buffer_in_use` use
/// differs from the presented index, and the two buffers' byte ranges in
/// the shared region are disjoint. Since only `flip` changes the presented
/// index (every other operation's contract leaves the surface table
/// untouched), this holds before and after any `commit`.
pub proof fn lemma_framebuffer_is_not_presented(s: GpuDisplaySurface)
    requires
        s.wf(),
        s.buffer_size > 0,
    ensures
        ({
            let cand = (s.buffer_index + 1) % (BUFFER_COUNT as int);
            &&& cand != s.buffer_index
            &&& (cand * s.buffer_size + s.buffer_size <= s.buffer_index * s.buffer_size
                || s.buffer_index * s.buffer_size + s.buffer_size <= cand * s.buffer_size)
        }),
{
    let bs = s.buffer_size as int;
    let idx = s.buffer_index as int;
    assert(idx == 0 || idx == 1);
    if idx == 0 {
        assert((idx + 1) % (BUFFER_COUNT as int) == 1);
        assert(1 * bs == bs && 0 * bs == 0);
    } else {
        assert((idx + 1) % (BUFFER_COUNT as int) == 0);
        assert(1 * bs == bs && 0 * bs == 0);
    }
}

/// Law: with two buffers, presentation alternates. A flip advances the
/// presented index to the old candidate, and the new candidate — the
/// buffer `framebuffer_memory` hands out next — is exactly the buffer that
/// was presented before the flip; a second flip returns to it.
pub proof fn lemma_flip_alternates(s: GpuDisplaySurface)
    requires
        s.wf(),
    ensures
        ((s.buffer_index + 1) % (BUFFER_COUNT as int) + 1) % (BUFFER_COUNT as int)
            == s.buffer_index,
{
    assert(s.buffer_index == 0 || s.buffer_index == 1);
}

/// Law: surface ids are issued strictly increasing, whatever runs in
/// between. A successful `create_surface` returns the counter's current
/// value and bumps it; every other operation's contract keeps the counter
/// unchanged. So with `a` the state right after an earlier successful
/// creation returned `earlier`, and `b` any later state reached from it,
/// the id a successful creation issues from `b` exceeds `earlier`.
pub proof fn lemma_surface_ids_strictly_increase(
    a: DisplayView,
    b: DisplayView,
    earlier: u32,
    later: u32,
)
    requires
        earlier < a.surface_next_id,
        a.surface_next_id <= b.surface_next_id,
        later == b.surface_next_id,
    ensures
        later > earlier,
{
}

/// Law: ids are never reused. Every id registered in a well-formed
/// connection is below its counter, and a successful creation issues the
/// counter's value, so a fresh id never collides with a live one.
pub proof fn lemma_issued_ids_fresh(d: GpuDisplay)
    requires
        d.wf(),
    ensures
        forall|id: u32| #[trigger] d@.surfaces.contains_key(id) ==> id < d@.surface_next_id,
        forall|id: u32| #[trigger] d@.dmabufs.contains_key(id) ==> id < d@.dmabuf_next_id,
        !d@.surfaces.contains_key(d@.surface_next_id),
        !d@.dmabufs.contains_key(d@.dmabuf_next_id),
{
}

} // verus!
