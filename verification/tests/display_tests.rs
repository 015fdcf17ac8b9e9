//! Tests of the display connection: connection setup, handle tables, id
//! issuance, the double-buffering state machine, and region sizing.

use gpu_display::GpuDisplay;
use gpu_display::GpuDisplayError;
use gpu_display::SysError;
use gpu_display::round_up_to_page_size;
use gpu_display::validate_endpoint_path;

/// A connection whose native allocation and handshake both succeeded.
fn connected() -> GpuDisplay {
    GpuDisplay::new(Some(7), b"/run/compositor", true).expect("connection should succeed")
}

#[test]
fn validate_endpoint_path_accepts_plain_paths() {
    assert!(validate_endpoint_path(b"/run/compositor").is_ok());
    assert!(validate_endpoint_path(b"").is_ok());
}

#[test]
fn validate_endpoint_path_rejects_interior_nul() {
    assert_eq!(
        validate_endpoint_path(b"/run\0/compositor"),
        Err(GpuDisplayError::InvalidPath)
    );
    assert_eq!(validate_endpoint_path(b"\0"), Err(GpuDisplayError::InvalidPath));
}

#[test]
fn new_succeeds_with_context_valid_path_and_handshake() {
    let d = GpuDisplay::new(Some(42), b"/run/compositor", true);
    assert!(d.is_ok());
    assert_eq!(d.unwrap().ctx(), 42);
}

#[test]
fn new_without_context_is_allocate_error() {
    match GpuDisplay::new(None, b"/run/compositor", true) {
        Err(GpuDisplayError::Allocate) => {}
        other => panic!("expected Allocate, got {:?}", other.map(|_| ())),
    }
}

#[test]
fn new_with_nul_path_is_invalid_path_error() {
    match GpuDisplay::new(Some(7), b"/run\0", true) {
        Err(GpuDisplayError::InvalidPath) => {}
        other => panic!("expected InvalidPath, got {:?}", other.map(|_| ())),
    }
}

#[test]
fn new_with_failed_handshake_is_connect_error() {
    match GpuDisplay::new(Some(7), b"/run/compositor", false) {
        Err(GpuDisplayError::Connect) => {}
        other => panic!("expected Connect, got {:?}", other.map(|_| ())),
    }
}

#[test]
fn round_up_to_page_size_exact_values() {
    assert_eq!(round_up_to_page_size(0), 0);
    assert_eq!(round_up_to_page_size(1), 4096);
    assert_eq!(round_up_to_page_size(4096), 4096);
    assert_eq!(round_up_to_page_size(4097), 8192);
    assert_eq!(round_up_to_page_size(32768), 32768);
}

#[test]
fn describe_names_every_error() {
    assert_eq!(GpuDisplayError::Allocate.describe(), "internal allocation failed");
    assert_eq!(GpuDisplayError::Connect.describe(), "failed to connect to compositor");
    assert_eq!(
        GpuDisplayError::CreateShm(SysError { errno: 12 }).describe(),
        "failed to create shared memory"
    );
    assert_eq!(
        GpuDisplayError::SetSize(SysError { errno: 28 }).describe(),
        "failed to set size of shared memory"
    );
    assert_eq!(
        GpuDisplayError::CreateSurface.describe(),
        "failed to create surface on the compositor"
    );
    assert_eq!(
        GpuDisplayError::FailedImport.describe(),
        "failed to import a buffer to the compositor"
    );
    assert_eq!(GpuDisplayError::InvalidSurfaceId.describe(), "invalid surface ID");
    assert_eq!(GpuDisplayError::InvalidPath.describe(), "invalid path");
}

#[test]
fn import_ids_count_up_from_zero() {
    let mut d = connected();
    assert_eq!(d.dmabuf_next_id(), 0);
    assert_eq!(d.import_dmabuf(Some(100)), Ok(0));
    assert_eq!(d.import_dmabuf(Some(101)), Ok(1));
    assert_eq!(d.import_dmabuf(Some(102)), Ok(2));
    assert_eq!(d.dmabuf_next_id(), 3);
}

#[test]
fn rejected_import_is_failed_import_error() {
    let mut d = connected();
    assert_eq!(d.import_dmabuf(None), Err(GpuDisplayError::FailedImport));
    // The id was not consumed by the failure.
    assert_eq!(d.import_dmabuf(Some(100)), Ok(0));
}

#[test]
fn release_import_returns_handle_once_then_is_noop() {
    let mut d = connected();
    assert_eq!(d.import_dmabuf(Some(100)), Ok(0));
    assert_eq!(d.release_import(0), Some(100));
    assert_eq!(d.release_import(0), None);
    assert_eq!(d.release_import(999), None);
}

#[test]
fn released_import_id_is_never_reissued() {
    let mut d = connected();
    assert_eq!(d.import_dmabuf(Some(100)), Ok(0));
    assert_eq!(d.release_import(0), Some(100));
    assert_eq!(d.import_dmabuf(Some(101)), Ok(1));
}

#[test]
fn surface_plan_sizes_a_64_by_64_surface() {
    let d = connected();
    let plan = d.create_surface_plan(None, 64, 64).expect("plan should succeed");
    assert_eq!(plan.parent, None);
    assert_eq!(plan.row_size, 256);
    assert_eq!(plan.fb_size, 16384);
    assert_eq!(plan.total_size, 32768);
}

#[test]
fn surface_plan_rounds_region_up_to_a_page() {
    let d = connected();
    let plan = d.create_surface_plan(None, 1, 1).expect("plan should succeed");
    assert_eq!(plan.fb_size, 4);
    // At least both buffers, and page-aligned.
    assert!(plan.total_size >= 2 * plan.fb_size as usize);
    assert_eq!(plan.total_size % 4096, 0);
    assert_eq!(plan.total_size, 4096);
}

#[test]
fn surface_plan_with_unknown_parent_is_invalid_surface_id() {
    let mut d = connected();
    let plan = d.create_surface_plan(Some(999), 64, 64);
    assert_eq!(plan, Err(GpuDisplayError::InvalidSurfaceId));
    // Nothing was allocated or registered by the failure: the next surface
    // still gets the first id.
    let plan = d.create_surface_plan(None, 64, 64).expect("plan should succeed");
    assert_eq!(d.create_surface(&plan, Some(11)), Ok(0));
}

#[test]
fn surface_plan_resolves_known_parent_handle() {
    let mut d = connected();
    let plan = d.create_surface_plan(None, 64, 64).expect("plan should succeed");
    assert_eq!(d.create_surface(&plan, Some(11)), Ok(0));
    let child_plan = d.create_surface_plan(Some(0), 16, 16).expect("plan should succeed");
    assert_eq!(child_plan.parent, Some(11));
}

#[test]
fn rejected_surface_creation_is_create_surface_error() {
    let mut d = connected();
    let plan = d.create_surface_plan(None, 64, 64).expect("plan should succeed");
    assert_eq!(d.create_surface(&plan, None), Err(GpuDisplayError::CreateSurface));
    // The id was not consumed by the failure.
    assert_eq!(d.create_surface(&plan, Some(11)), Ok(0));
}

#[test]
fn surface_ids_increase_across_interleaved_releases() {
    let mut d = connected();
    let plan = d.create_surface_plan(None, 64, 64).expect("plan should succeed");
    assert_eq!(d.create_surface(&plan, Some(11)), Ok(0));
    assert_eq!(d.create_surface(&plan, Some(12)), Ok(1));
    assert_eq!(d.release_surface(0), Some(11));
    assert_eq!(d.create_surface(&plan, Some(13)), Ok(2));
    assert_eq!(d.release_surface(2), Some(13));
    assert_eq!(d.create_surface(&plan, Some(14)), Ok(3));
    // Releases never rewind the counter, so ids are never reissued.
    assert_eq!(d.surface_next_id(), 4);
}

#[test]
fn release_surface_returns_handle_once_then_is_noop() {
    let mut d = connected();
    let plan = d.create_surface_plan(None, 64, 64).expect("plan should succeed");
    assert_eq!(d.create_surface(&plan, Some(11)), Ok(0));
    assert_eq!(d.release_surface(0), Some(11));
    assert_eq!(d.release_surface(0), None);
    assert_eq!(d.release_surface(999), None);
}

#[test]
fn framebuffer_memory_alternates_between_the_two_buffers() {
    let mut d = connected();
    let plan = d.create_surface_plan(None, 64, 64).expect("plan should succeed");
    let id = d.create_surface(&plan, Some(11)).expect("creation should succeed");

    let first = d.framebuffer_memory(id).expect("surface is registered");
    assert_eq!(first.len, 64 * 4 * 64);
    assert_eq!(first.offset, 16384);

    let flip = d.flip(id).expect("surface is registered");
    assert_eq!(flip.surface, 11);
    assert_eq!(flip.index, 1);

    let second = d.framebuffer_memory(id).expect("surface is registered");
    assert_eq!(second.len, 64 * 4 * 64);
    assert_eq!(second.offset, 0);
    assert_ne!(second.offset, first.offset);
}

#[test]
fn framebuffer_memory_is_never_the_presented_buffer() {
    let mut d = connected();
    let plan = d.create_surface_plan(None, 64, 64).expect("plan should succeed");
    let id = d.create_surface(&plan, Some(11)).expect("creation should succeed");
    // The presented index starts at 0, so writing goes to buffer 1; after
    // each flip the two swap, and the writable offset never equals the
    // presented one.
    let mut presented_offset: usize = 0;
    for _ in 0..5 {
        let fb = d.framebuffer_memory(id).expect("surface is registered");
        assert_ne!(fb.offset, presented_offset);
        let flip = d.flip(id).expect("surface is registered");
        presented_offset = flip.index * fb.len;
        assert_eq!(fb.offset, presented_offset);
    }
}

#[test]
fn framebuffer_memory_of_unknown_id_is_none() {
    let d = connected();
    assert!(d.framebuffer_memory(0).is_none());
}

#[test]
fn commit_names_the_surface_and_ignores_unknown_ids() {
    let mut d = connected();
    let plan = d.create_surface_plan(None, 64, 64).expect("plan should succeed");
    let id = d.create_surface(&plan, Some(11)).expect("creation should succeed");
    assert_eq!(d.commit(id), Some(11));
    assert_eq!(d.commit(999), None);
}

#[test]
fn next_buffer_in_use_queries_the_writable_buffer() {
    let mut d = connected();
    let plan = d.create_surface_plan(None, 64, 64).expect("plan should succeed");
    let id = d.create_surface(&plan, Some(11)).expect("creation should succeed");
    let q = d.next_buffer_in_use(id).expect("surface is registered");
    assert_eq!(q.surface, 11);
    assert_eq!(q.index, 1);
    d.flip(id).expect("surface is registered");
    let q = d.next_buffer_in_use(id).expect("surface is registered");
    assert_eq!(q.index, 0);
    assert!(d.next_buffer_in_use(999).is_none());
}

#[test]
fn flip_of_unknown_id_is_a_noop() {
    let mut d = connected();
    assert!(d.flip(999).is_none());
}

#[test]
fn flip_to_names_both_handles() {
    let mut d = connected();
    let import_id = d.import_dmabuf(Some(100)).expect("import should succeed");
    let plan = d.create_surface_plan(None, 64, 64).expect("plan should succeed");
    let id = d.create_surface(&plan, Some(11)).expect("creation should succeed");
    let action = d.flip_to(id, import_id).expect("both ids are registered");
    assert_eq!(action.surface, 11);
    assert_eq!(action.dmabuf, 100);
}

#[test]
fn flip_to_with_unknown_id_is_a_silent_noop() {
    let mut d = connected();
    let plan = d.create_surface_plan(None, 64, 64).expect("plan should succeed");
    let id = d.create_surface(&plan, Some(11)).expect("creation should succeed");
    assert!(d.flip_to(id, 999).is_none());
    assert!(d.flip_to(999, 0).is_none());
}

#[test]
fn close_requested_on_released_id_is_none_not_an_error() {
    let mut d = connected();
    let plan = d.create_surface_plan(None, 64, 64).expect("plan should succeed");
    let id = d.create_surface(&plan, Some(11)).expect("creation should succeed");
    assert_eq!(d.close_requested(id), Some(11));
    assert_eq!(d.release_surface(id), Some(11));
    assert_eq!(d.close_requested(id), None);
}

#[test]
fn set_position_names_the_move_and_ignores_unknown_ids() {
    let mut d = connected();
    let plan = d.create_surface_plan(None, 64, 64).expect("plan should succeed");
    let id = d.create_surface(&plan, Some(11)).expect("creation should succeed");
    let action = d.set_position(id, 10, 20).expect("surface is registered");
    assert_eq!(action.surface, 11);
    assert_eq!(action.x, 10);
    assert_eq!(action.y, 20);
    assert!(d.set_position(999, 1, 2).is_none());
}

#[test]
fn take_ctx_yields_the_context_exactly_once() {
    let mut d = connected();
    assert_eq!(d.take_ctx(), Some(7));
    assert_eq!(d.take_ctx(), None);
    assert_eq!(d.take_ctx(), None);
}
