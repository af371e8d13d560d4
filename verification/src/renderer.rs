//! The renderer's decisions, apart from the GPU work they order: when a resize rebuilds, which
//! surface frame is rendered or skipped, when a trace batch is submitted, and what one poll of
//! the device publishes and completes.

use vstd::prelude::*;

use crate::budget::{CoreResourcePlan, FrameResourceFootprint, pixels_of};
use crate::capabilities::{SurfaceSelection, surface_configuration_changed};
use crate::errors::DeviceEvent;
use crate::extent::{ChangeModel, ExtentChange, ExtentTracker, RenderExtent, TrackerModel, tracker_step};
use crate::frame::FrameProgress;
use crate::plan::{TracePlan, plan_scratch_bytes};
use crate::progress::{BatchTiming, TraceCompletion, TraceSubmission, law_batch_covers_the_next_tiles};
use crate::surface::{AcquireOutcome, SurfaceDirective, directive_for, directive_spec};
use crate::tiles::{RegionModel, TileRegion};
use crate::timing::{QueryTicks, ReadbackEvent, TimestampReadback, TimingError, readback_result};

verus! {

/// Why a frame was not presented.
#[derive(Clone, Copy, Debug, PartialEq, Eq, Structural)]
pub enum PresentSkip {
    ZeroExtent,
    Suspended,
    Timeout,
    Occluded,
    Outdated,
    Lost,
    Validation,
}

/// The outcome of one present request.
#[derive(Clone, Copy, Debug, PartialEq, Eq, Structural)]
pub enum PresentResult {
    Presented,
    Skipped(PresentSkip),
}

/// Why a combined trace-and-present frame was not presented.
#[derive(Clone, Copy, Debug, PartialEq, Eq, Structural)]
pub enum FrameSkip {
    ZeroExtent,
    Suspended,
    Timeout,
    Occluded,
    Outdated,
    Lost,
    Validation,
}

/// The outcome of one combined trace-and-present frame.
#[derive(Clone, Copy, Debug, PartialEq, Eq, Structural)]
pub enum FrameStatus {
    Presented,
    Skipped(FrameSkip),
}

/// The surface repair that a skipped frame orders before the next one.
#[derive(Clone, Copy, Debug, PartialEq, Eq, Structural)]
pub enum SurfaceRepair {
    Keep,
    /// Reconfigure the current surface even if its selection did not change.
    Reconfigure,
    /// Create a new surface for the window.
    Recreate,
}

/// How to proceed with a surface frame.
#[derive(Clone, Copy, Debug, PartialEq, Eq, Structural)]
pub enum SurfaceFrame {
    Render { reconfigure_after_present: bool },
    Skip { repair: SurfaceRepair, reason: PresentSkip },
}

/// The surface frame for an acquisition outcome (`None` when no surface is held).
pub open spec fn surface_frame_spec(acquisition: Option<AcquireOutcome>, surface_suspended: bool) -> SurfaceFrame {
    match acquisition {
        None => if surface_suspended {
            SurfaceFrame::Skip { repair: SurfaceRepair::Keep, reason: PresentSkip::Suspended }
        } else {
            SurfaceFrame::Skip { repair: SurfaceRepair::Recreate, reason: PresentSkip::Lost }
        },
        Some(outcome) => match outcome {
            AcquireOutcome::Success => SurfaceFrame::Render { reconfigure_after_present: false },
            AcquireOutcome::Suboptimal => SurfaceFrame::Render { reconfigure_after_present: true },
            AcquireOutcome::Timeout => SurfaceFrame::Skip { repair: SurfaceRepair::Keep, reason: PresentSkip::Timeout },
            AcquireOutcome::Occluded => SurfaceFrame::Skip { repair: SurfaceRepair::Keep, reason: PresentSkip::Occluded },
            AcquireOutcome::Outdated => SurfaceFrame::Skip {
                repair: SurfaceRepair::Reconfigure,
                reason: PresentSkip::Outdated,
            },
            AcquireOutcome::Lost => SurfaceFrame::Skip { repair: SurfaceRepair::Recreate, reason: PresentSkip::Lost },
            AcquireOutcome::Validation => SurfaceFrame::Skip {
                repair: SurfaceRepair::Keep,
                reason: PresentSkip::Validation,
            },
        },
    }
}

/// Decides a surface frame from the acquisition outcome; without a surface, a suspended
/// renderer skips and an active one recreates the surface and reports it lost.
pub fn plan_surface_frame(acquisition: Option<AcquireOutcome>, surface_suspended: bool) -> (frame: SurfaceFrame)
    ensures
        frame == surface_frame_spec(acquisition, surface_suspended),
{
    let outcome = match acquisition {
        Some(outcome) => outcome,
        None => {
            if surface_suspended {
                return SurfaceFrame::Skip { repair: SurfaceRepair::Keep, reason: PresentSkip::Suspended };
            }
            return SurfaceFrame::Skip { repair: SurfaceRepair::Recreate, reason: PresentSkip::Lost };
        },
    };
    match directive_for(outcome) {
        SurfaceDirective::Render { reconfigure_after_present } => SurfaceFrame::Render { reconfigure_after_present },
        SurfaceDirective::Skip => {
            let reason = match outcome {
                AcquireOutcome::Timeout => PresentSkip::Timeout,
                _ => PresentSkip::Occluded,
            };
            SurfaceFrame::Skip { repair: SurfaceRepair::Keep, reason }
        },
        SurfaceDirective::Reconfigure => SurfaceFrame::Skip {
            repair: SurfaceRepair::Reconfigure,
            reason: PresentSkip::Outdated,
        },
        SurfaceDirective::Recreate => SurfaceFrame::Skip { repair: SurfaceRepair::Recreate, reason: PresentSkip::Lost },
        SurfaceDirective::ReportValidation => SurfaceFrame::Skip {
            repair: SurfaceRepair::Keep,
            reason: PresentSkip::Validation,
        },
    }
}

pub open spec fn frame_skip_of(reason: PresentSkip) -> FrameSkip {
    match reason {
        PresentSkip::ZeroExtent => FrameSkip::ZeroExtent,
        PresentSkip::Suspended => FrameSkip::Suspended,
        PresentSkip::Timeout => FrameSkip::Timeout,
        PresentSkip::Occluded => FrameSkip::Occluded,
        PresentSkip::Outdated => FrameSkip::Outdated,
        PresentSkip::Lost => FrameSkip::Lost,
        PresentSkip::Validation => FrameSkip::Validation,
    }
}

/// The skip reported by a combined frame once its surface repair ran: a repair that did not
/// succeed turns the reason into `Validation`.
pub fn frame_skip_after_repair(repair: SurfaceRepair, reason: PresentSkip, repaired: bool) -> (skip: FrameSkip)
    ensures
        skip == if repair != SurfaceRepair::Keep && !repaired { FrameSkip::Validation } else { frame_skip_of(reason) },
{
    let failed = match repair {
        SurfaceRepair::Keep => false,
        _ => !repaired,
    };
    if failed {
        return FrameSkip::Validation;
    }
    match reason {
        PresentSkip::ZeroExtent => FrameSkip::ZeroExtent,
        PresentSkip::Suspended => FrameSkip::Suspended,
        PresentSkip::Timeout => FrameSkip::Timeout,
        PresentSkip::Occluded => FrameSkip::Occluded,
        PresentSkip::Outdated => FrameSkip::Outdated,
        PresentSkip::Lost => FrameSkip::Lost,
        PresentSkip::Validation => FrameSkip::Validation,
    }
}

/// Whether a surface reconfiguration must configure the surface: when forced (after an
/// outdated or suboptimal frame) or when the selection's configuration changed.
pub fn reconfigure_needed(force: bool, current: SurfaceSelection, next: SurfaceSelection) -> (needed: bool)
    ensures
        needed <==> (force || current.format != next.format || current.color_space != next.color_space
            || current.present_mode != next.present_mode || current.alpha_mode != next.alpha_mode),
{
    force || surface_configuration_changed(current, next)
}

/// What one poll of the renderer reports.
#[derive(Debug)]
pub struct RendererUpdate {
    published_generation: Option<u64>,
    completed_present_generation: Option<u64>,
    events: Vec<DeviceEvent>,
}

impl RendererUpdate {
    pub closed spec fn published_spec(&self) -> Option<u64> {
        self.published_generation
    }

    pub closed spec fn completed_present_spec(&self) -> Option<u64> {
        self.completed_present_generation
    }

    pub closed spec fn events_spec(&self) -> Seq<DeviceEvent> {
        self.events@
    }

    pub fn new(
        published_generation: Option<u64>,
        completed_present_generation: Option<u64>,
        events: Vec<DeviceEvent>,
    ) -> (update: Self)
        ensures
            update.published_spec() == published_generation,
            update.completed_present_spec() == completed_present_generation,
            update.events_spec() == events@,
    {
        RendererUpdate { published_generation, completed_present_generation, events }
    }

    /// The generation whose complete trace this poll published.
    pub fn published_generation(&self) -> (generation: Option<u64>)
        ensures
            generation == self.published_spec(),
    {
        self.published_generation
    }

    /// The published generation whose presentation the GPU finished during this poll.
    pub fn completed_present_generation(&self) -> (generation: Option<u64>)
        ensures
            generation == self.completed_present_spec(),
    {
        self.completed_present_generation
    }

    /// Hands out the device events and leaves none behind.
    pub fn take_events(&mut self) -> (events: Vec<DeviceEvent>)
        ensures
            events@ == old(self).events_spec(),
            final(self).events_spec() == Seq::<DeviceEvent>::empty(),
            final(self).published_spec() == old(self).published_spec(),
            final(self).completed_present_spec() == old(self).completed_present_spec(),
    {
        let mut events: Vec<DeviceEvent> = Vec::new();
        std::mem::swap(&mut events, &mut self.events);
        events
    }
}

impl Default for RendererUpdate {
    fn default() -> (update: Self)
        ensures
            update.published_spec() is None,
            update.completed_present_spec() is None,
            update.events_spec() == Seq::<DeviceEvent>::empty(),
    {
        RendererUpdate { published_generation: None, completed_present_generation: None, events: Vec::new() }
    }
}

/// What one poll of a combined trace-and-present engine reports.
#[derive(Debug)]
pub struct PollOutcome {
    completed_readback: bool,
    events: Vec<DeviceEvent>,
}

impl PollOutcome {
    pub fn new(completed_readback: bool, events: Vec<DeviceEvent>) -> (outcome: Self)
        ensures
            outcome.parts_spec() == (completed_readback, events@),
    {
        PollOutcome { completed_readback, events }
    }

    pub closed spec fn parts_spec(&self) -> (bool, Seq<DeviceEvent>) {
        (self.completed_readback, self.events@)
    }

    /// Whether a timestamp readback completed, and the device events.
    pub fn into_parts(self) -> (parts: (bool, Vec<DeviceEvent>))
        ensures
            (parts.0, parts.1@) == self.parts_spec(),
    {
        (self.completed_readback, self.events)
    }
}

impl Default for PollOutcome {
    fn default() -> (outcome: Self)
        ensures
            outcome.parts_spec() == (false, Seq::<DeviceEvent>::empty()),
    {
        PollOutcome { completed_readback: false, events: Vec::new() }
    }
}

/// Why a scientific capture was refused before any GPU work.
#[derive(Clone, Copy, Debug, PartialEq, Eq, Structural)]
pub enum CaptureRequestError {
    NoPublishedScene,
    NoPhysicalSurfaceSource,
}

/// What a resize request asks of the GPU side.
#[derive(Clone, Copy, Debug, PartialEq, Eq, Structural)]
pub enum ResizeStep {
    /// The surface is suspended; the request is ignored until the window is resumed.
    Ignored,
    /// Nothing to do.
    Unchanged,
    /// The extent became zero; presentation pauses and the installed frame stays.
    Paused,
    /// Size-dependent resources must be rebuilt for `extent`, to be installed as `generation`.
    Rebuild { extent: RenderExtent, generation: u64 },
}

/// The mathematical state of a [`RendererState`].
pub struct RendererModel {
    pub extent: TrackerModel,
    pub surface_suspended: bool,
    pub frame: Option<crate::progress::ProgressModel>,
    pub has_frame: bool,
    pub frame_extent: (u32, u32),
    pub frame_completed_batches: int,
    pub pending_readback: Option<u64>,
    pub published_generation: Option<u64>,
    pub published_extent: (u32, u32),
    pub pending_present_generation: Option<u64>,
}

/// The renderer's state apart from its GPU objects.
///
/// It tracks the extent generation, whether the surface is suspended, the trace state of the
/// installed frame, the one timestamp readback that may be in flight, the latest published
/// generation and the published generation whose presentation is still on the GPU.
#[derive(Debug)]
pub struct RendererState {
    extent: ExtentTracker,
    surface_suspended: bool,
    frame: Option<FrameProgress>,
    timings: TimestampReadback<u64>,
    published_generation: Option<u64>,
    published_extent: RenderExtent,
    pending_present_generation: Option<u64>,
}

impl View for RendererState {
    type V = RendererModel;

    closed spec fn view(&self) -> RendererModel {
        RendererModel {
            extent: self.extent@,
            surface_suspended: self.surface_suspended,
            frame: match self.frame {
                Some(f) => f.candidate_model(),
                None => None,
            },
            has_frame: self.frame is Some,
            frame_extent: match self.frame {
                Some(f) => f.extent_model(),
                None => (0u32, 0u32),
            },
            frame_completed_batches: match self.frame {
                Some(f) => f.completed_batches_model(),
                None => 0,
            },
            pending_readback: self.timings@,
            published_generation: self.published_generation,
            published_extent: self.published_extent@,
            pending_present_generation: self.pending_present_generation,
        }
    }
}

/// The batch that may be submitted next: only while the surface is active, the extent is
/// nonzero, no timestamp readback is pending and the installed frame has one.
pub open spec fn next_batch_spec(m: RendererModel) -> Option<(RegionModel, u64)> {
    if m.surface_suspended || m.extent.extent is None || m.pending_readback is Some || !m.has_frame {
        None
    } else {
        match m.frame {
            Some(p) => if p.has_next_batch() {
                Some((p.planned_batch(), m.extent.generation as u64))
            } else {
                None
            },
            None => None,
        }
    }
}

impl RendererState {
    pub closed spec fn wf(&self) -> bool {
        &&& (self.frame matches Some(f) ==> f.wf())
    }

    /// A renderer with no extent yet, an active surface and the initial one-pixel published scene.
    pub fn new() -> (state: Self)
        ensures
            state.wf(),
            state@.extent.extent is None,
            state@.extent.generation == 0,
            !state@.extent.paused,
            !state@.surface_suspended,
            !state@.has_frame,
            state@.pending_readback is None,
            state@.published_generation is None,
            state@.published_extent == (1u32, 1u32),
            state@.pending_present_generation is None,
    {
        RendererState {
            extent: ExtentTracker::new(),
            surface_suspended: false,
            frame: None,
            timings: TimestampReadback::new(),
            published_generation: None,
            published_extent: RenderExtent::one(),
            pending_present_generation: None,
        }
    }

    /// The current extent generation.
    pub fn generation(&self) -> (generation: u64)
        ensures
            generation == self@.extent.generation,
    {
        self.extent.generation()
    }

    /// The current extent, `None` while presentation is paused.
    pub fn extent(&self) -> (extent: Option<RenderExtent>)
        ensures
            extent is Some <==> self@.extent.extent is Some,
            extent matches Some(e) ==> self@.extent.extent == Some(e@),
    {
        self.extent.extent()
    }

    pub fn is_suspended(&self) -> (suspended: bool)
        ensures
            suspended == self@.surface_suspended,
    {
        self.surface_suspended
    }

    /// The latest published generation and its extent.
    pub fn published(&self) -> (published: (Option<u64>, RenderExtent))
        ensures
            published.0 == self@.published_generation,
            published.1@ == self@.published_extent,
    {
        (self.published_generation, self.published_extent)
    }

    /// Completed batches of the installed frame.
    pub fn completed_batches(&self) -> (count: Option<u32>)
        ensures
            count is Some <==> self@.has_frame,
            count matches Some(c) ==> c == self@.frame_completed_batches,
    {
        match &self.frame {
            Some(frame) => Some(frame.completed_batches()),
            None => None,
        }
    }

    /// Whether a timestamp readback or a presentation is still on the GPU.
    pub fn has_pending_work(&self) -> (pending: bool)
        ensures
            pending == (self@.pending_readback is Some || self@.pending_present_generation is Some),
    {
        self.timings.has_pending_readback() || self.pending_present_generation.is_some()
    }

    pub fn has_pending_readback(&self) -> (pending: bool)
        ensures
            pending == self@.pending_readback is Some,
    {
        self.timings.has_pending_readback()
    }

    /// The surface was dropped for a desktop suspend.
    pub fn suspend(&mut self)
        ensures
            final(self)@ == (RendererModel { surface_suspended: true, ..old(self)@ }),
            final(self).wf() == old(self).wf(),
    {
        self.surface_suspended = true;
    }

    /// The surface is back after a desktop resume.
    pub fn resumed(&mut self)
        ensures
            final(self)@ == (RendererModel { surface_suspended: false, ..old(self)@ }),
            final(self).wf() == old(self).wf(),
    {
        self.surface_suspended = false;
    }

    /// Applies a resize request as far as it needs no GPU work: a suspended renderer ignores
    /// it, a zero extent pauses presentation at once, and a new extent is only announced, to be
    /// installed by [`Self::commit_rebuild`] once its resources exist.
    pub fn resize_step(&mut self, width: u32, height: u32) -> (step: ResizeStep)
        requires
            !old(self)@.surface_suspended && tracker_step(old(self)@.extent, width, height).1 is Rebuild
                ==> old(self)@.extent.generation < u64::MAX,
        ensures
            final(self).wf() == old(self).wf(),
            old(self)@.surface_suspended ==> step == ResizeStep::Ignored && final(self)@ == old(self)@,
            !old(self)@.surface_suspended ==> {
                let (next, change) = tracker_step(old(self)@.extent, width, height);
                match change {
                    ChangeModel::Unchanged => step == ResizeStep::Unchanged && final(self)@ == old(self)@,
                    ChangeModel::Paused => step == ResizeStep::Paused && final(self)@ == (RendererModel {
                        extent: next,
                        ..old(self)@
                    }),
                    ChangeModel::Rebuild { width: w, height: h, generation } => {
                        &&& step matches ResizeStep::Rebuild { extent, generation: g } && extent@ == (w, h)
                            && g == generation
                        &&& final(self)@ == old(self)@
                    },
                }
            },
    {
        if self.surface_suspended {
            return ResizeStep::Ignored;
        }
        let (next, change) = self.extent.updated(width, height);
        match change {
            ExtentChange::Unchanged => ResizeStep::Unchanged,
            ExtentChange::Paused => {
                self.extent = next;
                ResizeStep::Paused
            },
            ExtentChange::Rebuild { extent, generation } => ResizeStep::Rebuild { extent, generation },
        }
    }

    /// The peak resource plan of rebuilding for `replacement` under the trace plan `trace`,
    /// whose scratch for the replacement extent the new frame will hold.
    pub fn resource_plan_for_rebuild(&self, replacement: RenderExtent, trace: TracePlan) -> (plan: CoreResourcePlan)
        ensures
            plan.published == pixels_of(self@.published_extent),
            plan.replacement == FrameResourceFootprint::tracing_spec(
                replacement@,
                plan_scratch_bytes(trace, replacement@) as u64,
            ),
            plan.replacement.trace_scratch == plan_scratch_bytes(trace, replacement@),
            !self@.has_frame ==> plan.installed == FrameResourceFootprint::empty_spec(),
            self@.has_frame ==> plan.installed == if self@.frame is Some {
                FrameResourceFootprint::tracing_spec(self@.frame_extent, self.frame_trace_scratch())
            } else {
                FrameResourceFootprint { ui: pixels_of(self@.frame_extent) as u64, candidate: 0, trace_scratch: 0 }
            },
    {
        let replacement_trace_scratch = trace.scratch_bytes(replacement);
        match &self.frame {
            Some(frame) => frame.rebuild_plan(self.published_extent, replacement, replacement_trace_scratch),
            None => CoreResourcePlan::without_installed_frame(
                self.published_extent,
                replacement,
                replacement_trace_scratch,
            ),
        }
    }

    pub closed spec fn frame_trace_scratch(&self) -> u64 {
        match self.frame {
            Some(f) => f.trace_scratch_model(),
            None => 0,
        }
    }

    /// Installs the rebuilt frame for the extent of an announced rebuild: the extent generation
    /// advances by one and the presentation still on the GPU is no longer waited for.
    pub fn commit_rebuild(&mut self, width: u32, height: u32, frame: FrameProgress)
        requires
            old(self)@.extent.generation < u64::MAX,
            frame.wf(),
            tracker_step(old(self)@.extent, width, height).1 is Rebuild,
            frame.extent_model() == (width, height),
        ensures
            final(self).wf(),
            final(self)@ == (RendererModel {
                extent: tracker_step(old(self)@.extent, width, height).0,
                frame: frame.candidate_model(),
                has_frame: true,
                frame_extent: frame.extent_model(),
                frame_completed_batches: frame.completed_batches_model(),
                pending_present_generation: None,
                ..old(self)@
            }),
            final(self).frame_trace_scratch() == frame.trace_scratch_model(),
    {
        let (next, _) = self.extent.updated(width, height);
        self.extent = next;
        self.frame = Some(frame);
        self.pending_present_generation = None;
    }

    /// The surface frame to prepare now.
    pub fn surface_frame(&self, acquisition: Option<AcquireOutcome>) -> (frame: SurfaceFrame)
        ensures
            frame == surface_frame_spec(acquisition, self@.surface_suspended),
    {
        plan_surface_frame(acquisition, self.surface_suspended)
    }

    /// The published generation a scientific capture reads: refused before the first
    /// publication, then for a scene without a physical surface source.
    pub fn capture_generation(&self, has_physical_surface_source: bool) -> (generation: Result<u64, CaptureRequestError>)
        ensures
            self@.published_generation is None ==> generation == Err::<u64, CaptureRequestError>(
                CaptureRequestError::NoPublishedScene,
            ),
            self@.published_generation is Some && !has_physical_surface_source ==> generation == Err::<
                u64,
                CaptureRequestError,
            >(CaptureRequestError::NoPhysicalSurfaceSource),
            has_physical_surface_source ==> (self@.published_generation matches Some(g) ==> generation == Ok::<
                u64,
                CaptureRequestError,
            >(g)),
    {
        let generation = match self.published_generation {
            Some(generation) => generation,
            None => return Err(CaptureRequestError::NoPublishedScene),
        };
        if !has_physical_surface_source {
            return Err(CaptureRequestError::NoPhysicalSurfaceSource);
        }
        Ok(generation)
    }

    /// The extent to present at, or the skip for a zero extent.
    pub fn present_extent(&self) -> (extent: Result<RenderExtent, PresentSkip>)
        ensures
            extent is Err <==> self@.extent.extent is None,
            extent is Err ==> extent == Err::<RenderExtent, PresentSkip>(PresentSkip::ZeroExtent),
            extent matches Ok(e) ==> self@.extent.extent == Some(e@),
    {
        match self.extent.extent() {
            Some(extent) => Ok(extent),
            None => Err(PresentSkip::ZeroExtent),
        }
    }

    /// A frame was presented: the published generation it showed is now on the GPU.
    pub fn presented(&mut self)
        ensures
            final(self)@ == (RendererModel { pending_present_generation: old(self)@.published_generation, ..old(self)@ }),
            final(self).wf() == old(self).wf(),
    {
        self.pending_present_generation = self.published_generation;
    }

    /// The extent whose surface an output change reconfigures; none while suspended or paused.
    pub fn output_update_extent(&self) -> (extent: Option<RenderExtent>)
        ensures
            (self@.surface_suspended || self@.extent.extent is None) ==> extent is None,
            (!self@.surface_suspended && self@.extent.extent is Some) ==> (extent matches Some(e)
                && self@.extent.extent == Some(e@)),
    {
        if self.surface_suspended {
            return None;
        }
        self.extent.extent()
    }

    /// The next hidden trace batch and the generation it is encoded for.
    pub fn next_trace_batch(&self) -> (next: Option<(TileRegion, u64)>)
        requires
            self.wf(),
        ensures
            match next {
                Some((batch, generation)) => next_batch_spec(self@) == Some((batch@, generation)),
                None => next_batch_spec(self@) is None,
            },
    {
        if self.surface_suspended || self.extent.extent().is_none() || !self.timings.capture_available() {
            return None;
        }
        let frame = match &self.frame {
            Some(frame) => frame,
            None => return None,
        };
        match frame.next_batch() {
            Some(batch) => Some((batch, self.extent.generation())),
            None => None,
        }
    }

    /// Records the submission of the batch [`Self::next_trace_batch`] handed out, with its
    /// timestamp readback tagged by the batch's generation.
    pub fn batch_submitted(&mut self, batch: TileRegion)
        requires
            old(self).wf(),
            next_batch_spec(old(self)@) matches Some((b, _)) && b == batch@,
        ensures
            final(self).wf(),
            final(self)@ == after_batch_submitted(old(self)@, batch@),
            final(self).frame_trace_scratch() == old(self).frame_trace_scratch(),
    {
        let generation = self.extent.generation();
        proof {
            law_batch_covers_the_next_tiles(old(self)@.frame->Some_0);
        }
        let mut frame = self.frame.take();
        match frame {
            Some(ref mut f) => f.submitted(batch),
            None => {},
        }
        self.frame = frame;
        let _ = self.timings.encode_readback(generation);
    }

    /// Finishes the pending timestamp readback with what its callback reported.
    pub fn complete_readback(&mut self, event: ReadbackEvent) -> (result: Result<Option<(u64, QueryTicks)>, TimingError>)
        ensures
            final(self).wf() == old(self).wf(),
            final(self).frame_trace_scratch() == old(self).frame_trace_scratch(),
            match old(self)@.pending_readback {
                None => result == Ok::<Option<(u64, QueryTicks)>, TimingError>(None) && final(self)@ == old(self)@,
                Some(generation) => {
                    &&& result == readback_result(generation, event)
                    &&& final(self)@ == (RendererModel {
                        pending_readback: if event is NotReady { Some(generation) } else { None },
                        ..old(self)@
                    })
                },
            },
    {
        self.timings.complete(event)
    }

    /// Completes the trace submission of `submission_generation`: when it finishes the
    /// candidate of the current generation, that generation is published.
    pub fn complete_trace_submission(&mut self, submission_generation: u64, timing: BatchTiming) -> (published:
        Option<u64>)
        requires
            old(self).wf(),
            old(self)@.has_frame && old(self)@.frame is Some && submission_generation == old(self)@.extent.generation
                ==> old(self)@.frame_completed_batches < u32::MAX,
        ensures
            final(self).wf(),
            final(self).frame_trace_scratch() == old(self).frame_trace_scratch(),
            final(self)@.extent == old(self)@.extent,
            final(self)@.surface_suspended == old(self)@.surface_suspended,
            final(self)@.has_frame == old(self)@.has_frame,
            final(self)@.frame_extent == old(self)@.frame_extent,
            final(self)@.pending_readback == old(self)@.pending_readback,
            final(self)@.pending_present_generation == old(self)@.pending_present_generation,
            match (old(self)@.has_frame, old(self)@.frame) {
                (true, Some(p)) => if submission_generation != old(self)@.extent.generation {
                    published is None && final(self)@ == old(self)@
                } else {
                    let q = p.after_complete(timing);
                    &&& final(self)@.frame_completed_batches == old(self)@.frame_completed_batches + 1
                    &&& if q.is_complete() {
                        &&& published == Some(old(self)@.extent.generation as u64)
                        &&& final(self)@.frame is None
                        &&& final(self)@.published_generation == published
                        &&& final(self)@.published_extent == old(self)@.frame_extent
                    } else {
                        &&& published is None
                        &&& final(self)@.frame == Some(q)
                        &&& final(self)@.published_generation == old(self)@.published_generation
                        &&& final(self)@.published_extent == old(self)@.published_extent
                    }
                },
                _ => published is None && final(self)@ == old(self)@,
            },
    {
        let generation = self.extent.generation();
        let mut frame = match self.frame.take() {
            Some(frame) => frame,
            None => return None,
        };
        let completion = frame.complete_submission(TraceSubmission::new(submission_generation), generation, timing);
        let published = match completion {
            TraceCompletion::Ready => {
                self.published_generation = Some(generation);
                self.published_extent = frame.extent();
                Some(generation)
            },
            _ => None,
        };
        self.frame = Some(frame);
        published
    }

    /// After a device poll that found the queue empty (`queue_empty`), the presentation still
    /// waited for is complete and is reported once.
    pub fn complete_presentation(&mut self, queue_empty: bool) -> (completed: Option<u64>)
        ensures
            final(self).wf() == old(self).wf(),
            final(self).frame_trace_scratch() == old(self).frame_trace_scratch(),
            (final(self)@, completed) == presentation_completion(old(self)@, queue_empty),
    {
        if queue_empty {
            self.pending_present_generation.take()
        } else {
            None
        }
    }
}

/// What a poll reports of the presentation on the GPU, and the state after it.
pub open spec fn presentation_completion(m: RendererModel, queue_empty: bool) -> (RendererModel, Option<u64>) {
    if queue_empty {
        (RendererModel { pending_present_generation: None, ..m }, m.pending_present_generation)
    } else {
        (m, None)
    }
}

/// The state after the batch handed out by `next_batch_spec` is submitted.
pub open spec fn after_batch_submitted(m: RendererModel, batch: RegionModel) -> RendererModel {
    RendererModel {
        frame: Some(m.frame->Some_0.after_submit(batch)),
        pending_readback: Some(m.extent.generation as u64),
        ..m
    }
}

/// A completed presentation is reported by one poll only: once reported, later polls report
/// none until another frame is presented.
pub proof fn law_presentation_completes_once(m: RendererModel, queue_empty: bool)
    ensures
        presentation_completion(m, true).1 == m.pending_present_generation,
        presentation_completion(presentation_completion(m, true).0, queue_empty).1 is None,
{
}

/// At most one trace batch is in flight: after a batch is submitted no other is handed out
/// until its timestamp readback has been consumed.
pub proof fn law_one_batch_in_flight(m: RendererModel, batch: RegionModel)
    requires
        next_batch_spec(m) matches Some((b, _)) && b == batch,
    ensures
        next_batch_spec(after_batch_submitted(m, batch)) is None,
        after_batch_submitted(m, batch).pending_readback == Some(m.extent.generation as u64),
{
}

/// A suspended renderer hands out no trace batch.
pub proof fn law_suspended_renderer_does_not_trace(m: RendererModel)
    requires
        m.surface_suspended,
    ensures
        next_batch_spec(m) is None,
{
}

impl Default for RendererState {
    fn default() -> (state: Self)
        ensures
            state.wf(),
            state@.extent.extent is None,
            state@.extent.generation == 0,
            !state@.surface_suspended,
            !state@.has_frame,
            state@.pending_readback is None,
            state@.published_generation is None,
            state@.pending_present_generation is None,
    {
        RendererState::new()
    }
}

} // verus!
