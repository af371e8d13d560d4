use gravlume_render::budget::{
    CoreResourcePlan, DeviceLimits, FrameResourceFootprint, MAXIMUM_CORE_RESOURCE_BYTES, MAXIMUM_NATIVE_TRACE_PIXELS,
    extent_pixels, validate_extent, validate_render_extent,
};
use gravlume_render::errors::ResizeError;
use gravlume_render::extent::RenderExtent;
use gravlume_render::frame::FrameProgress;
use gravlume_render::plan::TracePlan;
use gravlume_render::progress::{BatchTiming, TraceCompletion, TraceProgress, TraceSubmission};
use gravlume_render::tiles::{TileRegion, tile_grid};

/// The timing feedback of a batch measured at the target cost: its size is kept.
fn on_target(len: u32) -> BatchTiming {
    BatchTiming::Rescaled(u64::from(len))
}

/// The timing feedback of a batch far below the target cost: its size grows by half, rounded.
fn far_below_target(len: u32) -> BatchTiming {
    BatchTiming::Rescaled((3 * u64::from(len) + 1) / 2)
}

fn scratch(extent: RenderExtent) -> u64 {
    TracePlan::AcceleratedSky.scratch_bytes(extent)
}

#[test]
fn publication_gate_requires_the_complete_current_generation() {
    let extent = RenderExtent::new(4_097, 9).expect("extent is nonzero");
    let mut progress = TraceProgress::new(extent, DeviceLimits::webgpu_default().max_compute_workgroups_per_dimension);
    let submission = TraceSubmission::new(7);
    let [columns, rows] = tile_grid(extent);
    let total_tiles = columns * rows;
    let mut covered_tiles = 0;

    while let Some(batch) = progress.next_batch() {
        progress.submitted(batch);
        covered_tiles += batch.len();
        let expected = if covered_tiles == total_tiles { TraceCompletion::Ready } else { TraceCompletion::Pending };
        assert_eq!(batch.finishes(extent), expected == TraceCompletion::Ready);
        assert_eq!(progress.complete_submission(submission, 7, on_target(batch.len())), expected);
    }

    let stale_extent = RenderExtent::new(1, 1).expect("extent is nonzero");
    let mut stale = TraceProgress::new(stale_extent, DeviceLimits::webgpu_default().max_compute_workgroups_per_dimension);
    let batch = stale.next_batch().expect("one tile requires one submission");
    stale.submitted(batch);
    assert_eq!(stale.complete_submission(submission, 8, on_target(batch.len())), TraceCompletion::Stale);
}

#[test]
fn core_resource_budget_accounts_for_transactional_4k_rebuild() {
    let limits = DeviceLimits::webgpu_default();
    let extent = RenderExtent::new(3_840, 2_160).expect("extent is nonzero");
    let initial = CoreResourcePlan::without_installed_frame(RenderExtent::one(), extent, scratch(extent));
    let active_rebuild =
        CoreResourcePlan::rebuild(extent, FrameResourceFootprint::tracing(extent, scratch(extent)), extent, scratch(extent));
    let completed_rebuild =
        CoreResourcePlan::rebuild(extent, FrameResourceFootprint::display_only(extent), extent, scratch(extent));
    let cold_rebuild = CoreResourcePlan::rebuild(
        RenderExtent::one(),
        FrameResourceFootprint::tracing(extent, scratch(extent)),
        extent,
        scratch(extent),
    );
    assert_eq!(extent_pixels(extent), MAXIMUM_NATIVE_TRACE_PIXELS);
    assert!(initial.required_bytes() <= MAXIMUM_CORE_RESOURCE_BYTES);
    assert!(validate_extent(extent, &limits, initial).is_ok());
    assert!(validate_extent(extent, &limits, cold_rebuild).is_ok());
    assert!(active_rebuild.required_bytes() > MAXIMUM_CORE_RESOURCE_BYTES);
    assert!(matches!(validate_extent(extent, &limits, active_rebuild), Err(ResizeError::FrameResourceBudget { .. })));
    assert!(validate_extent(extent, &limits, completed_rebuild).is_ok());
}

#[test]
fn resize_rejects_pixels_beyond_the_native_4k_policy() {
    let limits = DeviceLimits::webgpu_default();
    let extent = RenderExtent::new(3_840, 2_161).expect("extent is nonzero");

    assert!(matches!(
        validate_extent(extent, &limits, CoreResourcePlan::without_installed_frame(RenderExtent::one(), extent, scratch(extent))),
        Err(ResizeError::NativePixelBudget { width: 3_840, height: 2_161, maximum_pixels: MAXIMUM_NATIVE_TRACE_PIXELS })
    ));
}

#[test]
fn trace_batches_respect_the_device_dispatch_dimension_at_4k() {
    let extent = RenderExtent::new(3_840, 2_160).expect("extent is nonzero");
    let maximum_dispatch_dimension = 512;
    let mut progress = TraceProgress::new(extent, maximum_dispatch_dimension);
    let [tile_columns, tile_rows] = tile_grid(extent);
    let mut covered_tiles = 0;

    while let Some(batch) = progress.next_batch() {
        let [workgroups_x, workgroups_y] = batch.workgroups();
        assert!(workgroups_x <= maximum_dispatch_dimension);
        assert!(workgroups_y <= maximum_dispatch_dimension);
        let [origin_x, origin_y] = batch.origin();
        assert_eq!(origin_y * tile_columns + origin_x, covered_tiles);
        progress.submitted(batch);
        covered_tiles += batch.len();
        progress.completed(far_below_target(batch.len()));
    }

    assert_eq!(covered_tiles, tile_columns * tile_rows);
}

#[test]
fn frame_resize_rejects_each_excess_texture_dimension() {
    let limits = DeviceLimits::webgpu_default();
    let maximum = limits.max_texture_dimension_2d;
    let too_wide = RenderExtent::new(maximum + 1, 1).expect("extent is nonzero");
    let too_tall = RenderExtent::new(1, maximum + 1).expect("extent is nonzero");

    assert!(matches!(
        validate_extent(too_wide, &limits, CoreResourcePlan::without_installed_frame(RenderExtent::one(), too_wide, scratch(too_wide))),
        Err(ResizeError::ExtentLimit { width, height: 1, max_texture_dimension_2d })
            if width == maximum + 1 && max_texture_dimension_2d == maximum
    ));
    assert!(matches!(
        validate_extent(too_tall, &limits, CoreResourcePlan::without_installed_frame(RenderExtent::one(), too_tall, scratch(too_tall))),
        Err(ResizeError::ExtentLimit { width: 1, height, max_texture_dimension_2d })
            if height == maximum + 1 && max_texture_dimension_2d == maximum
    ));
}

#[test]
fn resize_accepts_4k_with_webgpu_default_limits() {
    let limits = DeviceLimits::webgpu_default();
    let extent = RenderExtent::new(3_840, 2_160).expect("extent is nonzero");

    assert!(validate_render_extent(extent, &limits).is_ok());
}

#[test]
fn engine_resize_rejects_each_excess_texture_dimension() {
    let limits = DeviceLimits::webgpu_default();
    let maximum = limits.max_texture_dimension_2d;
    let boundary = RenderExtent::new(maximum, maximum).expect("extent is nonzero");
    let too_wide = RenderExtent::new(maximum + 1, 1).expect("extent is nonzero");
    let too_tall = RenderExtent::new(1, maximum + 1).expect("extent is nonzero");

    assert!(matches!(validate_render_extent(boundary, &limits), Err(ResizeError::TraceRecordLimit { .. })));
    assert!(matches!(
        validate_render_extent(too_wide, &limits),
        Err(ResizeError::ExtentLimit { width: 8_193, height: 1, max_texture_dimension_2d: 8_192 })
    ));
    assert!(matches!(
        validate_render_extent(too_tall, &limits),
        Err(ResizeError::ExtentLimit { width: 1, height: 8_193, max_texture_dimension_2d: 8_192 })
    ));
}

#[test]
fn trace_progress_covers_each_tile_once_with_bounded_batches() {
    for (width, height, maximum_dispatch_dimension) in [(1, 1, 1), (257, 3, 2), (100, 257, 16), (64, 64, 3), (9, 200, 5)] {
        let extent = RenderExtent::new(width, height).expect("nonzero");
        let mut progress = TraceProgress::new(extent, maximum_dispatch_dimension);
        let [tile_columns, tile_rows] = tile_grid(extent);
        let mut covered = vec![false; (tile_columns * tile_rows) as usize];
        while let Some(batch) = progress.next_batch() {
            let [origin_x, origin_y] = batch.origin();
            let [workgroups_x, workgroups_y] = batch.workgroups();
            assert!(workgroups_x <= maximum_dispatch_dimension);
            assert!(workgroups_y <= maximum_dispatch_dimension);
            for tile_y in origin_y..origin_y + workgroups_y {
                for tile_x in origin_x..origin_x + workgroups_x {
                    assert!(tile_x < tile_columns && tile_y < tile_rows);
                    let index = (tile_y * tile_columns + tile_x) as usize;
                    assert!(!covered[index], "tile ({tile_x}, {tile_y}) was repeated");
                    covered[index] = true;
                }
            }
            progress.submitted(batch);
            assert!(progress.next_batch().is_none(), "one batch stays in flight");
            progress.completed(on_target(batch.len()));
        }
        assert!(covered.into_iter().all(|tile| tile));
        assert!(progress.is_complete());
        assert!(progress.next_batch().is_none(), "complete traces are reused");
    }
}

#[test]
fn frame_releases_its_candidate_on_publication_and_ignores_stale_work() {
    let extent = RenderExtent::new(16, 8).expect("nonzero");
    let mut frame = FrameProgress::new(extent, 65_535, scratch(extent));
    assert!(frame.has_candidate());
    assert_eq!(frame.resource_footprint(), FrameResourceFootprint::tracing(extent, scratch(extent)));
    let batch = frame.next_batch().expect("a fresh frame has work");
    frame.submitted(batch);
    assert!(frame.next_batch().is_none());
    assert_eq!(frame.complete_submission(TraceSubmission::new(2), 3, on_target(batch.len())), TraceCompletion::Stale);
    assert_eq!(frame.completed_batches(), 0);
    assert_eq!(frame.complete_submission(TraceSubmission::new(3), 3, on_target(batch.len())), TraceCompletion::Ready);
    assert!(!frame.has_candidate());
    assert_eq!(frame.completed_batches(), 1);
    assert_eq!(frame.diagnostics(), (2, 2, 1));
    assert_eq!(frame.resource_footprint(), FrameResourceFootprint::display_only(extent));
    assert_eq!(frame.complete_submission(TraceSubmission::new(3), 3, on_target(1)), TraceCompletion::Stale);
}

#[test]
fn record_planes_beyond_the_storage_limits_are_refused() {
    let limits = DeviceLimits { max_storage_buffer_binding_size: 1_024, ..DeviceLimits::webgpu_default() };
    let extent = RenderExtent::new(9, 8).expect("nonzero");
    assert!(matches!(
        validate_render_extent(extent, &limits),
        Err(ResizeError::TraceRecordLimit { required_bytes: 1_152, max_storage_buffer_binding_size: 1_024, .. })
    ));
    let fits = RenderExtent::new(8, 8).expect("nonzero");
    assert!(validate_render_extent(fits, &limits).is_ok());
}

#[test]
fn a_frame_takes_any_batch_from_its_next_tile_and_counts_every_current_completion() {
    let extent = RenderExtent::new(24, 8).expect("nonzero");
    let mut frame = FrameProgress::new(extent, 65_535, scratch(extent));
    // A one-tile batch at the first tile, narrower than the planned one.
    frame.submitted(TileRegion::new([0, 0], [1, 1]));
    assert_eq!(frame.diagnostics(), (0, 3, 0));
    assert_eq!(frame.complete_submission(TraceSubmission::new(1), 1, BatchTiming::Unusable), TraceCompletion::Pending);
    assert_eq!(frame.diagnostics(), (1, 3, 1));
    let next = frame.next_batch().expect("two tiles remain");
    assert_eq!(next.origin(), [1, 0]);
    assert_eq!(next.workgroups(), [2, 1]);
    // A completion of the current generation with nothing in flight still counts.
    assert_eq!(frame.complete_submission(TraceSubmission::new(1), 1, BatchTiming::Unusable), TraceCompletion::Pending);
    assert_eq!(frame.completed_batches(), 2);
    frame.submitted(next);
    assert_eq!(frame.complete_submission(TraceSubmission::new(1), 1, BatchTiming::Unusable), TraceCompletion::Ready);
    assert_eq!(frame.completed_batches(), 3);
    assert_eq!(frame.diagnostics(), (3, 3, 3));
}
