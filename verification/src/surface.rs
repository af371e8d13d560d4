//! Surface acquisition directives and the per-frame acquire/submit/present protocol.

use vstd::prelude::*;

verus! {

/// Every outcome of acquiring the current surface texture.
#[derive(Clone, Copy, Debug, PartialEq, Eq, Structural)]
pub enum AcquireOutcome {
    Success,
    Suboptimal,
    Timeout,
    Occluded,
    Outdated,
    Lost,
    Validation,
}

/// What the renderer does with an acquisition outcome.
#[derive(Clone, Copy, Debug, PartialEq, Eq, Structural)]
pub enum SurfaceDirective {
    Render { reconfigure_after_present: bool },
    Skip,
    Reconfigure,
    Recreate,
    ReportValidation,
}

pub open spec fn directive_spec(outcome: AcquireOutcome) -> SurfaceDirective {
    match outcome {
        AcquireOutcome::Success => SurfaceDirective::Render { reconfigure_after_present: false },
        AcquireOutcome::Suboptimal => SurfaceDirective::Render { reconfigure_after_present: true },
        AcquireOutcome::Timeout | AcquireOutcome::Occluded => SurfaceDirective::Skip,
        AcquireOutcome::Outdated => SurfaceDirective::Reconfigure,
        AcquireOutcome::Lost => SurfaceDirective::Recreate,
        AcquireOutcome::Validation => SurfaceDirective::ReportValidation,
    }
}

/// Maps each acquisition outcome to its explicit directive.
pub fn directive_for(outcome: AcquireOutcome) -> (directive: SurfaceDirective)
    ensures
        directive == directive_spec(outcome),
{
    match outcome {
        AcquireOutcome::Success => SurfaceDirective::Render { reconfigure_after_present: false },
        AcquireOutcome::Suboptimal => SurfaceDirective::Render { reconfigure_after_present: true },
        AcquireOutcome::Timeout | AcquireOutcome::Occluded => SurfaceDirective::Skip,
        AcquireOutcome::Outdated => SurfaceDirective::Reconfigure,
        AcquireOutcome::Lost => SurfaceDirective::Recreate,
        AcquireOutcome::Validation => SurfaceDirective::ReportValidation,
    }
}

/// The stage a frame has reached.
#[derive(Clone, Copy, Debug, PartialEq, Eq, Structural)]
pub enum FrameStage {
    Ready,
    Acquired,
    Submitted,
    Complete,
}

/// A transition that the frame protocol refuses.
#[derive(Clone, Copy, Debug, PartialEq, Eq, Structural)]
pub enum FrameProtocolError {
    SubmitBeforeAcquire,
    PresentBeforeSubmit,
    DuplicateAcquire,
    AlreadyComplete,
}

impl FrameProtocolError {
    /// The human-readable description of the refusal.
    pub fn message(&self) -> (message: &'static str)
        ensures
            message@ == self.message_spec(),
    {
        match self {
            FrameProtocolError::SubmitBeforeAcquire => "frame submitted before acquiring a surface texture",
            FrameProtocolError::PresentBeforeSubmit => "frame presented before its commands were submitted",
            FrameProtocolError::DuplicateAcquire => "surface texture acquired more than once in one frame",
            FrameProtocolError::AlreadyComplete => "frame protocol is already complete",
        }
    }

    pub open spec fn message_spec(&self) -> Seq<char> {
        match self {
            FrameProtocolError::SubmitBeforeAcquire => "frame submitted before acquiring a surface texture"@,
            FrameProtocolError::PresentBeforeSubmit => "frame presented before its commands were submitted"@,
            FrameProtocolError::DuplicateAcquire => "surface texture acquired more than once in one frame"@,
            FrameProtocolError::AlreadyComplete => "frame protocol is already complete"@,
        }
    }
}

/// The events a frame can report to its protocol.
pub enum FrameEvent {
    Acquire,
    Submit,
    Present,
}

/// One protocol step: the next stage on success, or the refusal (the stage then stays as it was).
pub open spec fn frame_step(stage: FrameStage, event: FrameEvent) -> Result<FrameStage, FrameProtocolError> {
    match event {
        FrameEvent::Acquire => match stage {
            FrameStage::Ready => Ok(FrameStage::Acquired),
            FrameStage::Acquired | FrameStage::Submitted => Err(FrameProtocolError::DuplicateAcquire),
            FrameStage::Complete => Err(FrameProtocolError::AlreadyComplete),
        },
        FrameEvent::Submit => match stage {
            FrameStage::Ready => Err(FrameProtocolError::SubmitBeforeAcquire),
            FrameStage::Acquired => Ok(FrameStage::Submitted),
            FrameStage::Submitted | FrameStage::Complete => Err(FrameProtocolError::AlreadyComplete),
        },
        FrameEvent::Present => match stage {
            FrameStage::Ready | FrameStage::Acquired => Err(FrameProtocolError::PresentBeforeSubmit),
            FrameStage::Submitted => Ok(FrameStage::Complete),
            FrameStage::Complete => Err(FrameProtocolError::AlreadyComplete),
        },
    }
}

/// The stage after a step, whether or not it succeeded.
pub open spec fn stage_after(stage: FrameStage, event: FrameEvent) -> FrameStage {
    match frame_step(stage, event) {
        Ok(next) => next,
        Err(_) => stage,
    }
}

/// Enforces exactly one acquire, one submit and one present per frame, in that order.
#[derive(Debug)]
pub struct FrameProtocol {
    stage: FrameStage,
}

impl View for FrameProtocol {
    type V = FrameStage;

    closed spec fn view(&self) -> FrameStage {
        self.stage
    }
}

impl FrameProtocol {
    pub fn new() -> (protocol: Self)
        ensures
            protocol@ == FrameStage::Ready,
    {
        FrameProtocol { stage: FrameStage::Ready }
    }

    pub fn acquired(&mut self) -> (result: Result<(), FrameProtocolError>)
        ensures
            final(self)@ == stage_after(old(self)@, FrameEvent::Acquire),
            match frame_step(old(self)@, FrameEvent::Acquire) {
                Ok(_) => result is Ok,
                Err(e) => result == Err::<(), FrameProtocolError>(e),
            },
    {
        match self.stage {
            FrameStage::Ready => {
                self.stage = FrameStage::Acquired;
                Ok(())
            },
            FrameStage::Acquired | FrameStage::Submitted => Err(FrameProtocolError::DuplicateAcquire),
            FrameStage::Complete => Err(FrameProtocolError::AlreadyComplete),
        }
    }

    pub fn submitted(&mut self) -> (result: Result<(), FrameProtocolError>)
        ensures
            final(self)@ == stage_after(old(self)@, FrameEvent::Submit),
            match frame_step(old(self)@, FrameEvent::Submit) {
                Ok(_) => result is Ok,
                Err(e) => result == Err::<(), FrameProtocolError>(e),
            },
    {
        match self.stage {
            FrameStage::Ready => Err(FrameProtocolError::SubmitBeforeAcquire),
            FrameStage::Acquired => {
                self.stage = FrameStage::Submitted;
                Ok(())
            },
            FrameStage::Submitted => Err(FrameProtocolError::AlreadyComplete),
            FrameStage::Complete => Err(FrameProtocolError::AlreadyComplete),
        }
    }

    pub fn presented(&mut self) -> (result: Result<(), FrameProtocolError>)
        ensures
            final(self)@ == stage_after(old(self)@, FrameEvent::Present),
            match frame_step(old(self)@, FrameEvent::Present) {
                Ok(_) => result is Ok,
                Err(e) => result == Err::<(), FrameProtocolError>(e),
            },
    {
        match self.stage {
            FrameStage::Ready | FrameStage::Acquired => Err(FrameProtocolError::PresentBeforeSubmit),
            FrameStage::Submitted => {
                self.stage = FrameStage::Complete;
                Ok(())
            },
            FrameStage::Complete => Err(FrameProtocolError::AlreadyComplete),
        }
    }

    pub fn is_complete(&self) -> (complete: bool)
        ensures
            complete <==> self@ == FrameStage::Complete,
    {
        match self.stage {
            FrameStage::Complete => true,
            _ => false,
        }
    }
}

impl Default for FrameProtocol {
    fn default() -> (protocol: Self)
        ensures
            protocol@ == FrameStage::Ready,
    {
        FrameProtocol::new()
    }
}

/// The stage reached by a sequence of events, each refused event leaving the stage unchanged.
pub open spec fn run_frame(stage: FrameStage, events: Seq<FrameEvent>) -> FrameStage
    decreases events.len(),
{
    if events.len() == 0 {
        stage
    } else {
        run_frame(stage_after(stage, events[0]), events.drop_first())
    }
}

/// Acquire, submit and present, in that order, take a fresh frame to completion.
pub proof fn law_ordered_frame_completes()
    ensures
        run_frame(FrameStage::Ready, seq![FrameEvent::Acquire, FrameEvent::Submit, FrameEvent::Present])
            == FrameStage::Complete,
{
    reveal_with_fuel(run_frame, 4);
    let events = seq![FrameEvent::Acquire, FrameEvent::Submit, FrameEvent::Present];
    assert(events.drop_first() =~= seq![FrameEvent::Submit, FrameEvent::Present]);
    assert(events.drop_first().drop_first() =~= seq![FrameEvent::Present]);
    assert(events.drop_first().drop_first().drop_first() =~= Seq::<FrameEvent>::empty());
}

/// A complete frame refuses every further event and stays complete.
pub proof fn law_complete_is_final(event: FrameEvent)
    ensures
        frame_step(FrameStage::Complete, event) == Err::<FrameStage, FrameProtocolError>(FrameProtocolError::AlreadyComplete),
{
}

/// A step never moves backwards, and it advances by exactly one stage when it succeeds.
pub proof fn law_steps_advance_one_stage(stage: FrameStage, event: FrameEvent)
    ensures
        frame_step(stage, event) matches Ok(next) ==> stage_rank(next) == stage_rank(stage) + 1,
        stage_rank(stage_after(stage, event)) >= stage_rank(stage),
{
}

/// The position of a stage in the protocol order.
pub open spec fn stage_rank(stage: FrameStage) -> int {
    match stage {
        FrameStage::Ready => 0,
        FrameStage::Acquired => 1,
        FrameStage::Submitted => 2,
        FrameStage::Complete => 3,
    }
}

/// Every stage is reached only by its own event: acquire only from ready, submit only after
/// acquire, present only after submit; any sequence reaches completion only if it holds one
/// successful acquire, submit and present.
pub proof fn law_each_stage_has_one_entry(stage: FrameStage, event: FrameEvent)
    ensures
        frame_step(stage, event) == Ok::<FrameStage, FrameProtocolError>(FrameStage::Acquired)
            ==> stage == FrameStage::Ready && event is Acquire,
        frame_step(stage, event) == Ok::<FrameStage, FrameProtocolError>(FrameStage::Submitted)
            ==> stage == FrameStage::Acquired && event is Submit,
        frame_step(stage, event) == Ok::<FrameStage, FrameProtocolError>(FrameStage::Complete)
            ==> stage == FrameStage::Submitted && event is Present,
{
}

} // verus!
