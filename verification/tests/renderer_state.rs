use gravlume_render::errors::DeviceEvent;
use gravlume_render::errors::DeviceEventKind;
use gravlume_render::extent::RenderExtent;
use gravlume_render::frame::FrameProgress;
use gravlume_render::plan::TracePlan;
use gravlume_render::progress::BatchTiming;
use gravlume_render::renderer::{
    CaptureRequestError, PollOutcome, PresentSkip, RendererState, RendererUpdate, ResizeStep, SurfaceFrame, SurfaceRepair,
};
use gravlume_render::surface::AcquireOutcome;
use gravlume_render::timing::{ReadbackEvent, TimingError};

fn pair_bytes(ticks: [u64; 2]) -> Vec<u8> {
    ticks.into_iter().flat_map(u64::to_le_bytes).collect()
}

fn rebuild(state: &mut RendererState, width: u32, height: u32) -> u64 {
    let (extent, generation) = match state.resize_step(width, height) {
        ResizeStep::Rebuild { extent, generation } => (extent, generation),
        other => panic!("expected a rebuild, got {other:?}"),
    };
    let frame = FrameProgress::new(extent, 65_535, TracePlan::AcceleratedSky.scratch_bytes(extent));
    state.commit_rebuild(width, height, frame);
    generation
}

#[test]
fn resize_rebuilds_once_per_new_extent_and_pauses_at_zero() {
    let mut state = RendererState::new();
    assert_eq!(state.generation(), 0);
    assert_eq!(state.present_extent(), Err(PresentSkip::ZeroExtent));
    assert_eq!(rebuild(&mut state, 16, 8), 1);
    assert_eq!(state.generation(), 1);
    assert_eq!(state.resize_step(16, 8), ResizeStep::Unchanged);
    assert_eq!(state.resize_step(0, 8), ResizeStep::Paused);
    assert_eq!(state.extent(), None);
    assert_eq!(state.generation(), 1);
    assert_eq!(state.resize_step(0, 0), ResizeStep::Unchanged);
    assert_eq!(rebuild(&mut state, 16, 8), 2);
    assert_eq!(state.present_extent(), Ok(RenderExtent::new(16, 8).expect("nonzero")));
}

#[test]
fn an_announced_rebuild_changes_nothing_until_committed() {
    let mut state = RendererState::new();
    rebuild(&mut state, 16, 8);
    let step = state.resize_step(32, 32);
    assert_eq!(step, ResizeStep::Rebuild { extent: RenderExtent::new(32, 32).expect("nonzero"), generation: 2 });
    assert_eq!(state.generation(), 1);
    assert_eq!(state.extent(), RenderExtent::new(16, 8));
}

#[test]
fn a_suspended_renderer_ignores_resizes_and_does_not_trace() {
    let mut state = RendererState::new();
    rebuild(&mut state, 16, 8);
    state.suspend();
    assert!(state.is_suspended());
    assert_eq!(state.resize_step(32, 32), ResizeStep::Ignored);
    assert_eq!(state.generation(), 1);
    assert!(state.next_trace_batch().is_none());
    assert_eq!(
        state.surface_frame(None),
        SurfaceFrame::Skip { repair: SurfaceRepair::Keep, reason: PresentSkip::Suspended }
    );
    assert_eq!(state.output_update_extent(), None);
    state.resumed();
    assert!(state.next_trace_batch().is_some());
    assert_eq!(state.surface_frame(Some(AcquireOutcome::Success)), SurfaceFrame::Render { reconfigure_after_present: false });
}

#[test]
fn one_batch_is_in_flight_until_its_readback_is_consumed() {
    let mut state = RendererState::new();
    let generation = rebuild(&mut state, 64, 8);
    let (batch, batch_generation) = state.next_trace_batch().expect("a fresh frame has work");
    assert_eq!(batch_generation, generation);
    state.batch_submitted(batch);
    assert!(state.has_pending_readback());
    assert!(state.has_pending_work());
    assert!(state.next_trace_batch().is_none());

    assert!(matches!(state.complete_readback(ReadbackEvent::NotReady), Ok(None)));
    assert!(state.has_pending_readback());
    let (submission_generation, _) = state
        .complete_readback(ReadbackEvent::Mapped(pair_bytes([5, 9])))
        .expect("mapped")
        .expect("ticks");
    assert_eq!(submission_generation, generation);
    assert!(!state.has_pending_readback());

    let published = state.complete_trace_submission(submission_generation, BatchTiming::Rescaled(u64::from(batch.len())));
    assert_eq!(published, Some(generation));
    assert_eq!(state.published().0, Some(generation));
    assert_eq!(state.published().1, RenderExtent::new(64, 8).expect("nonzero"));
    assert_eq!(state.completed_batches(), Some(1));
    assert!(state.next_trace_batch().is_none());
}

#[test]
fn a_stale_submission_never_publishes() {
    let mut state = RendererState::new();
    let first = rebuild(&mut state, 64, 8);
    let (batch, _) = state.next_trace_batch().expect("work");
    state.batch_submitted(batch);
    let second = rebuild(&mut state, 32, 8);
    assert_ne!(first, second);
    let (submission_generation, _) = state
        .complete_readback(ReadbackEvent::Mapped(pair_bytes([0, 1])))
        .expect("mapped")
        .expect("ticks");
    assert_eq!(state.complete_trace_submission(submission_generation, BatchTiming::Unusable), None);
    assert_eq!(state.published().0, None);
    assert_eq!(state.completed_batches(), Some(0));
}

#[test]
fn a_failed_readback_frees_the_timestamp_slot() {
    let mut state = RendererState::new();
    rebuild(&mut state, 8, 8);
    let (batch, _) = state.next_trace_batch().expect("work");
    state.batch_submitted(batch);
    assert_eq!(state.complete_readback(ReadbackEvent::MapFailed).map(|_| ()), Err(TimingError::MapFailed));
    assert!(!state.has_pending_readback());
    assert!(matches!(state.complete_readback(ReadbackEvent::MapFailed), Ok(None)));
}

#[test]
fn a_presentation_completes_once_and_a_rebuild_forgets_it() {
    let mut state = RendererState::new();
    let generation = rebuild(&mut state, 8, 8);
    let (batch, _) = state.next_trace_batch().expect("work");
    state.batch_submitted(batch);
    let _ = state.complete_readback(ReadbackEvent::Mapped(pair_bytes([0, 1])));
    assert_eq!(state.complete_trace_submission(generation, BatchTiming::Unusable), Some(generation));

    state.presented();
    assert!(state.has_pending_work());
    assert_eq!(state.complete_presentation(false), None);
    assert_eq!(state.complete_presentation(true), Some(generation));
    assert_eq!(state.complete_presentation(true), None);
    assert!(!state.has_pending_work());

    state.presented();
    rebuild(&mut state, 16, 16);
    assert_eq!(state.complete_presentation(true), None);
}

#[test]
fn rebuild_plans_count_the_installed_frame() {
    let mut state = RendererState::new();
    let extent = RenderExtent::new(16, 8).expect("nonzero");
    let cold = state.resource_plan_for_rebuild(extent, TracePlan::AcceleratedSky);
    assert_eq!(cold.published, 1);
    assert_eq!(cold.installed.required_bytes(), 0);
    rebuild(&mut state, 16, 8);
    assert_eq!(cold.replacement.trace_scratch, TracePlan::AcceleratedSky.scratch_bytes(extent));
    let warm = state.resource_plan_for_rebuild(extent, TracePlan::AcceleratedSky);
    assert_eq!(warm.installed.candidate, 128);
    // The 16x8 extent has a 2x1 tile grid: a 5x3 escape map of four-byte nodes, and an edge list
    // of 128 pixels of four bytes behind a sixteen-byte control block.
    assert_eq!(warm.replacement.trace_scratch, 5 * 3 * 4 + 128 * 4 + 16);
    let surface = state.resource_plan_for_rebuild(extent, TracePlan::EquatorialBlackbodySurface);
    assert_eq!(surface.replacement.trace_scratch, 0);
}

#[test]
fn renderer_updates_hand_out_their_events_once() {
    let event = DeviceEvent::new(DeviceEventKind::Validation, "bad binding".to_string());
    let mut update = RendererUpdate::new(Some(3), None, vec![event]);
    assert_eq!(update.published_generation(), Some(3));
    assert_eq!(update.completed_present_generation(), None);
    let events = update.take_events();
    assert_eq!(events.len(), 1);
    assert_eq!(events[0].message(), "bad binding");
    assert!(update.take_events().is_empty());
    let empty = RendererUpdate::default();
    assert_eq!(empty.published_generation(), None);
}

#[test]
fn poll_outcomes_split_into_their_parts() {
    let outcome = PollOutcome::new(true, Vec::new());
    let (completed, events) = outcome.into_parts();
    assert!(completed);
    assert!(events.is_empty());
    let (completed, _) = PollOutcome::default().into_parts();
    assert!(!completed);
}

#[test]
fn captures_need_a_publication_and_a_physical_surface() {
    let mut state = RendererState::new();
    assert_eq!(state.capture_generation(true), Err(CaptureRequestError::NoPublishedScene));
    let generation = rebuild(&mut state, 8, 8);
    let (batch, _) = state.next_trace_batch().expect("work");
    state.batch_submitted(batch);
    let _ = state.complete_readback(ReadbackEvent::Mapped(pair_bytes([0, 1])));
    state.complete_trace_submission(generation, BatchTiming::Unusable);
    assert_eq!(state.capture_generation(false), Err(CaptureRequestError::NoPhysicalSurfaceSource));
    assert_eq!(state.capture_generation(true), Ok(generation));
}
