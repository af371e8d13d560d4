//! Render extents and the generation-numbered extent tracker.

use vstd::prelude::*;

verus! {

/// A nonzero render extent in physical pixels.
#[derive(Clone, Copy, Debug, PartialEq, Eq, Structural)]
pub struct RenderExtent {
    width: u32,
    height: u32,
}

impl View for RenderExtent {
    type V = (u32, u32);

    closed spec fn view(&self) -> (u32, u32) {
        (self.width, self.height)
    }
}

impl RenderExtent {
    #[verifier::type_invariant]
    spec fn nonzero(self) -> bool {
        self.width > 0 && self.height > 0
    }

    /// The one-pixel extent.
    pub fn one() -> (extent: Self)
        ensures
            extent@ == (1u32, 1u32),
    {
        RenderExtent { width: 1, height: 1 }
    }

    /// Returns the extent when both dimensions are nonzero.
    pub fn new(width: u32, height: u32) -> (extent: Option<Self>)
        ensures
            extent is Some <==> (width > 0 && height > 0),
            extent matches Some(e) ==> e@ == (width, height),
    {
        if width == 0 || height == 0 {
            None
        } else {
            Some(RenderExtent { width, height })
        }
    }

    pub fn width(self) -> (width: u32)
        ensures
            width == self@.0,
            width > 0,
    {
        proof {
            use_type_invariant(&self);
        }
        self.width
    }

    pub fn height(self) -> (height: u32)
        ensures
            height == self@.1,
            height > 0,
    {
        proof {
            use_type_invariant(&self);
        }
        self.height
    }

    /// Both dimensions of an extent are positive.
    pub fn positive(self)
        ensures
            self@.0 > 0,
            self@.1 > 0,
    {
        proof {
            use_type_invariant(&self);
        }
    }
}

/// What an extent update asks of the renderer.
#[derive(Clone, Copy, Debug, PartialEq, Eq, Structural)]
pub enum ExtentChange {
    Unchanged,
    Paused,
    Rebuild { extent: RenderExtent, generation: u64 },
}

/// The mathematical state of an [`ExtentTracker`].
pub struct TrackerModel {
    pub extent: Option<(u32, u32)>,
    pub generation: nat,
    pub paused: bool,
}

/// The mathematical content of an [`ExtentChange`].
pub enum ChangeModel {
    Unchanged,
    Paused,
    Rebuild { width: u32, height: u32, generation: nat },
}

impl View for ExtentChange {
    type V = ChangeModel;

    open spec fn view(&self) -> ChangeModel {
        match *self {
            ExtentChange::Unchanged => ChangeModel::Unchanged,
            ExtentChange::Paused => ChangeModel::Paused,
            ExtentChange::Rebuild { extent, generation } => ChangeModel::Rebuild {
                width: extent@.0,
                height: extent@.1,
                generation: generation as nat,
            },
        }
    }
}

/// One update of the tracker with a requested window size.
///
/// A zero dimension pauses rendering once; an unchanged nonzero extent is a no-op unless the
/// tracker is paused; every other nonzero extent starts a rebuild under the next generation.
pub open spec fn tracker_step(state: TrackerModel, width: u32, height: u32) -> (TrackerModel, ChangeModel) {
    if width == 0 || height == 0 {
        if state.paused {
            (state, ChangeModel::Unchanged)
        } else {
            (
                TrackerModel { extent: None, generation: state.generation, paused: true },
                ChangeModel::Paused,
            )
        }
    } else if !state.paused && state.extent == Some((width, height)) {
        (state, ChangeModel::Unchanged)
    } else {
        (
            TrackerModel {
                extent: Some((width, height)),
                generation: state.generation + 1,
                paused: false,
            },
            ChangeModel::Rebuild { width, height, generation: state.generation + 1 },
        )
    }
}

/// Tracks the installed extent and numbers every rebuild with a fresh generation.
#[derive(Clone, Copy, Debug)]
pub struct ExtentTracker {
    extent: Option<RenderExtent>,
    generation: u64,
    is_paused: bool,
}

impl View for ExtentTracker {
    type V = TrackerModel;

    closed spec fn view(&self) -> TrackerModel {
        TrackerModel {
            extent: match self.extent {
                Some(e) => Some(e@),
                None => None,
            },
            generation: self.generation as nat,
            paused: self.is_paused,
        }
    }
}

impl ExtentTracker {
    /// A tracker with no extent, generation zero, not paused.
    pub fn new() -> (tracker: Self)
        ensures
            tracker@.extent is None,
            tracker@.generation == 0,
            !tracker@.paused,
    {
        ExtentTracker { extent: None, generation: 0, is_paused: false }
    }

    /// One update with a requested window size; see [`tracker_step`].
    pub fn updated(self, width: u32, height: u32) -> (result: (Self, ExtentChange))
        requires
            tracker_step(self@, width, height).1 is Rebuild ==> self@.generation < u64::MAX,
        ensures
            (result.0@, result.1@) == tracker_step(self@, width, height),
    {
        let next = match RenderExtent::new(width, height) {
            Some(next) => next,
            None => {
                if self.is_paused {
                    return (self, ExtentChange::Unchanged);
                }
                let paused = ExtentTracker { extent: None, generation: self.generation, is_paused: true };
                return (paused, ExtentChange::Paused);
            },
        };
        let same = match self.extent {
            Some(current) => current == next,
            None => false,
        };
        if !self.is_paused && same {
            return (self, ExtentChange::Unchanged);
        }
        let generation = self.generation + 1;
        let rebuilt = ExtentTracker { extent: Some(next), generation, is_paused: false };
        (rebuilt, ExtentChange::Rebuild { extent: next, generation })
    }

    pub fn extent(&self) -> (extent: Option<RenderExtent>)
        ensures
            extent is Some <==> self@.extent is Some,
            extent matches Some(e) ==> self@.extent == Some(e@),
    {
        self.extent
    }

    pub fn generation(&self) -> (generation: u64)
        ensures
            generation == self@.generation,
    {
        self.generation
    }
}

impl Default for ExtentTracker {
    fn default() -> (tracker: Self)
        ensures
            tracker@.extent is None,
            tracker@.generation == 0,
            !tracker@.paused,
    {
        ExtentTracker::new()
    }
}

/// Generations never decrease, and each rebuild carries exactly the next generation.
pub proof fn law_generation_advances_only_on_rebuild(state: TrackerModel, width: u32, height: u32)
    ensures
        ({
            let (next, change) = tracker_step(state, width, height);
            &&& next.generation >= state.generation
            &&& (change is Rebuild <==> next.generation == state.generation + 1)
            &&& (change is Rebuild ==> change->Rebuild_generation == next.generation)
            &&& (!(change is Rebuild) ==> next.generation == state.generation)
        }),
{
}

/// An unchanged update leaves the whole tracker state as it was.
pub proof fn law_unchanged_keeps_state(state: TrackerModel, width: u32, height: u32)
    ensures
        tracker_step(state, width, height).1 is Unchanged ==> tracker_step(state, width, height).0 == state,
{
}

/// Applying the same request twice changes nothing the second time.
pub proof fn law_repeated_request_is_unchanged(state: TrackerModel, width: u32, height: u32)
    ensures
        tracker_step(tracker_step(state, width, height).0, width, height).1 is Unchanged,
        tracker_step(tracker_step(state, width, height).0, width, height).0
            == tracker_step(state, width, height).0,
{
}

/// A zero dimension pauses a running tracker once and leaves a paused one as it is; the
/// generation never moves on the way.
pub proof fn law_zero_extent_pauses_once(state: TrackerModel, width: u32, height: u32)
    requires
        width == 0 || height == 0,
    ensures
        ({
            let (next, change) = tracker_step(state, width, height);
            &&& state.paused ==> (change is Unchanged && next == state)
            &&& !state.paused ==> (change is Paused && next.extent is None && next.paused
                && next.generation == state.generation)
        }),
{
}

/// The tracker holds an extent exactly when it is not paused, once it has seen any request.
pub proof fn law_paused_iff_no_extent(state: TrackerModel, width: u32, height: u32)
    requires
        state.paused ==> state.extent is None,
    ensures
        ({
            let next = tracker_step(state, width, height).0;
            &&& next.paused ==> next.extent is None
            &&& (width > 0 && height > 0) ==> (!next.paused && next.extent == Some((width, height)))
        }),
{
}

} // verus!
