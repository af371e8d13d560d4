//! The trace state of one installed frame: its candidate schedule until publication.

use vstd::prelude::*;

use crate::budget::{CoreResourcePlan, FrameResourceFootprint, pixels_of};
use crate::extent::RenderExtent;
use crate::progress::{
    BatchTiming, ProgressModel, TraceCompletion, TraceProgress, TraceSubmission,
};
use crate::tiles::{TileRegion, grid_of, tile_count, tile_grid};

verus! {

/// The trace bookkeeping of a size-dependent frame bundle.
///
/// A frame starts with a candidate trace that is scheduled batch by batch; the candidate is
/// released when its last batch of the current generation completes, and the frame then only
/// presents the published scene.
#[derive(Debug)]
pub struct FrameProgress {
    candidate: Option<TraceProgress>,
    extent: RenderExtent,
    trace_scratch: u64,
    completed_batches: u32,
}

impl FrameProgress {
    pub closed spec fn candidate_model(&self) -> Option<ProgressModel> {
        match self.candidate {
            Some(p) => Some(p@),
            None => None,
        }
    }

    pub closed spec fn extent_model(&self) -> (u32, u32) {
        self.extent@
    }

    pub closed spec fn trace_scratch_model(&self) -> u64 {
        self.trace_scratch
    }

    pub closed spec fn completed_batches_model(&self) -> int {
        self.completed_batches as int
    }

    pub open spec fn wf(&self) -> bool {
        &&& tile_count(self.extent_model()) <= u32::MAX
        &&& (self.candidate_model() matches Some(p) ==> {
            &&& p.wf()
            &&& p.grid_x == grid_of(self.extent_model()).0
            &&& p.grid_y == grid_of(self.extent_model()).1
            &&& p.completed_batches <= self.completed_batches_model()
        })
    }

    /// A frame for `extent` with a fresh candidate trace.
    pub fn new(extent: RenderExtent, maximum_dispatch_dimension: u32, trace_scratch: u64) -> (frame: Self)
        requires
            maximum_dispatch_dimension > 0,
            tile_count(extent@) <= u32::MAX,
        ensures
            frame.wf(),
            frame.extent_model() == extent@,
            frame.trace_scratch_model() == trace_scratch,
            frame.completed_batches_model() == 0,
            frame.candidate_model() matches Some(p) && p.next == 0 && p.in_flight is None
                && p.maximum_dispatch_dimension == maximum_dispatch_dimension,
    {
        FrameProgress {
            candidate: Some(TraceProgress::new(extent, maximum_dispatch_dimension)),
            extent,
            trace_scratch,
            completed_batches: 0,
        }
    }

    pub fn extent(&self) -> (extent: RenderExtent)
        ensures
            extent@ == self.extent_model(),
    {
        self.extent
    }

    pub fn completed_batches(&self) -> (count: u32)
        ensures
            count == self.completed_batches_model(),
    {
        self.completed_batches
    }

    pub fn has_candidate(&self) -> (has: bool)
        ensures
            has == self.candidate_model() is Some,
    {
        self.candidate.is_some()
    }

    /// The next batch of the candidate trace, if the frame still traces one.
    pub fn next_batch(&self) -> (batch: Option<TileRegion>)
        requires
            self.wf(),
        ensures
            batch is Some <==> (self.candidate_model() matches Some(p) && p.has_next_batch()),
            batch matches Some(b) ==> self.candidate_model()->Some_0.planned_batch() == b@,
    {
        match &self.candidate {
            Some(progress) => progress.next_batch(),
            None => None,
        }
    }

    /// Records the submission of `batch`, which starts at the candidate's next tile, while no
    /// other batch is in flight.
    pub fn submitted(&mut self, batch: TileRegion)
        requires
            old(self).wf(),
            match old(self).candidate_model() {
                Some(p) => {
                    &&& p.in_flight is None
                    &&& p.index(batch@.origin_x, batch@.origin_y) == p.next
                    &&& p.next + batch@.len() <= p.total
                },
                None => true,
            },
        ensures
            final(self).wf(),
            final(self).extent_model() == old(self).extent_model(),
            final(self).trace_scratch_model() == old(self).trace_scratch_model(),
            final(self).completed_batches_model() == old(self).completed_batches_model(),
            match old(self).candidate_model() {
                Some(p) => final(self).candidate_model() == Some(p.after_submit(batch@)),
                None => final(self).candidate_model() is None,
            },
    {
        let mut candidate = self.candidate.take();
        match candidate {
            Some(ref mut progress) => {
                progress.submitted(batch);
            },
            None => {},
        }
        self.candidate = candidate;
    }

    /// Completes a trace submission. A stale submission, or one after publication, changes
    /// nothing; otherwise the batch count grows, and when the candidate becomes complete it is
    /// released and `Ready` tells the caller to publish it.
    ///
    /// A completion of the current generation counts even with no batch in flight.
    pub fn complete_submission(
        &mut self,
        submission: TraceSubmission,
        current_generation: u64,
        timing: BatchTiming,
    ) -> (completion: TraceCompletion)
        requires
            old(self).wf(),
            old(self).candidate_model() is Some && submission.generation() == current_generation
                ==> old(self).completed_batches_model() < u32::MAX,
        ensures
            final(self).wf(),
            final(self).extent_model() == old(self).extent_model(),
            final(self).trace_scratch_model() == old(self).trace_scratch_model(),
            match old(self).candidate_model() {
                None => completion == TraceCompletion::Stale && final(self).candidate_model() is None
                    && final(self).completed_batches_model() == old(self).completed_batches_model(),
                Some(p) => if submission.generation() != current_generation {
                    completion == TraceCompletion::Stale && final(self).candidate_model() == Some(p)
                        && final(self).completed_batches_model() == old(self).completed_batches_model()
                } else {
                    let q = p.after_complete(timing);
                    &&& final(self).completed_batches_model() == old(self).completed_batches_model() + 1
                    &&& if q.is_complete() {
                        completion == TraceCompletion::Ready && final(self).candidate_model() is None
                    } else {
                        completion == TraceCompletion::Pending && final(self).candidate_model() == Some(q)
                    }
                },
            },
    {
        let mut progress = match self.candidate.take() {
            Some(progress) => progress,
            None => return TraceCompletion::Stale,
        };
        let completion = progress.complete_submission(submission, current_generation, timing);
        match completion {
            TraceCompletion::Stale => {
                self.candidate = Some(progress);
            },
            TraceCompletion::Pending => {
                self.completed_batches = self.completed_batches + 1;
                self.candidate = Some(progress);
            },
            TraceCompletion::Ready => {
                self.completed_batches = self.completed_batches + 1;
                self.candidate = None;
            },
        }
        completion
    }

    /// Completed tiles, total tiles and completed batches; a published frame counts every tile.
    pub fn diagnostics(&self) -> (counts: (u32, u32, u32))
        requires
            self.wf(),
        ensures
            match self.candidate_model() {
                Some(p) => counts.0 == p.completed_tiles() && counts.1 == p.total,
                None => counts.0 == tile_count(self.extent_model()) && counts.1 == tile_count(self.extent_model()),
            },
            counts.2 == self.completed_batches_model(),
    {
        match &self.candidate {
            Some(progress) => {
                let (completed_tiles, total_tiles, _) = progress.diagnostics();
                (completed_tiles, total_tiles, self.completed_batches)
            },
            None => {
                let grid = tile_grid(self.extent);
                let tiles = grid[0] * grid[1];
                (tiles, tiles, self.completed_batches)
            },
        }
    }

    /// The resources the frame holds: its candidate trace and scratch while tracing, only the UI
    /// overlay once published.
    pub fn resource_footprint(&self) -> (footprint: FrameResourceFootprint)
        ensures
            footprint == if self.candidate_model() is Some {
                FrameResourceFootprint::tracing_spec(self.extent_model(), self.trace_scratch_model())
            } else {
                FrameResourceFootprint { ui: pixels_of(self.extent_model()) as u64, candidate: 0, trace_scratch: 0 }
            },
    {
        if self.candidate.is_some() {
            FrameResourceFootprint::tracing(self.extent, self.trace_scratch)
        } else {
            FrameResourceFootprint::display_only(self.extent)
        }
    }

    /// The peak plan of replacing this frame with one for `replacement`.
    pub fn rebuild_plan(
        &self,
        published: RenderExtent,
        replacement: RenderExtent,
        replacement_trace_scratch: u64,
    ) -> (plan: CoreResourcePlan)
        ensures
            plan.published == pixels_of(published@),
            plan.installed == (if self.candidate_model() is Some {
                FrameResourceFootprint::tracing_spec(self.extent_model(), self.trace_scratch_model())
            } else {
                FrameResourceFootprint { ui: pixels_of(self.extent_model()) as u64, candidate: 0, trace_scratch: 0 }
            }),
            plan.replacement == FrameResourceFootprint::tracing_spec(replacement@, replacement_trace_scratch),
    {
        CoreResourcePlan::rebuild(published, self.resource_footprint(), replacement, replacement_trace_scratch)
    }
}

} // verus!
