use gravlume_render::renderer::{
    FrameSkip, PresentSkip, SurfaceFrame, SurfaceRepair, frame_skip_after_repair, plan_surface_frame,
};
use gravlume_render::surface::{AcquireOutcome, FrameProtocol, FrameProtocolError, SurfaceDirective, directive_for};

#[test]
fn every_wgpu_30_acquire_outcome_has_an_explicit_directive() {
    let cases = [
        (AcquireOutcome::Success, SurfaceDirective::Render { reconfigure_after_present: false }),
        (AcquireOutcome::Suboptimal, SurfaceDirective::Render { reconfigure_after_present: true }),
        (AcquireOutcome::Timeout, SurfaceDirective::Skip),
        (AcquireOutcome::Occluded, SurfaceDirective::Skip),
        (AcquireOutcome::Outdated, SurfaceDirective::Reconfigure),
        (AcquireOutcome::Lost, SurfaceDirective::Recreate),
        (AcquireOutcome::Validation, SurfaceDirective::ReportValidation),
    ];

    for (outcome, expected) in cases {
        assert_eq!(directive_for(outcome), expected, "outcome: {outcome:?}");
    }
}

#[test]
fn successful_frame_allows_exactly_one_acquire_submit_and_present() {
    let mut protocol = FrameProtocol::default();

    protocol.acquired().expect("first acquire is valid");
    protocol.submitted().expect("submit follows acquire");
    protocol.presented().expect("present follows submit");

    assert!(protocol.is_complete());
    assert_eq!(protocol.acquired(), Err(FrameProtocolError::AlreadyComplete));
}

#[test]
fn frame_protocol_rejects_out_of_order_transitions() {
    let mut protocol = FrameProtocol::default();
    assert_eq!(protocol.submitted(), Err(FrameProtocolError::SubmitBeforeAcquire));

    protocol.acquired().expect("first acquire is valid");
    assert_eq!(protocol.presented(), Err(FrameProtocolError::PresentBeforeSubmit));
    assert_eq!(protocol.acquired(), Err(FrameProtocolError::DuplicateAcquire));
}

#[test]
fn refused_transitions_leave_the_protocol_where_it_was() {
    let mut protocol = FrameProtocol::new();
    assert_eq!(protocol.presented(), Err(FrameProtocolError::PresentBeforeSubmit));
    assert!(!protocol.is_complete());
    protocol.acquired().expect("acquire is still the first valid step");
    assert_eq!(protocol.acquired(), Err(FrameProtocolError::DuplicateAcquire));
    protocol.submitted().expect("the refused acquire did not advance the frame");
    assert_eq!(protocol.submitted(), Err(FrameProtocolError::AlreadyComplete));
    protocol.presented().expect("present follows submit");
    assert_eq!(protocol.presented(), Err(FrameProtocolError::AlreadyComplete));
    assert!(protocol.is_complete());
}

#[test]
fn frame_protocol_errors_describe_the_refusal() {
    assert_eq!(
        FrameProtocolError::SubmitBeforeAcquire.message(),
        "frame submitted before acquiring a surface texture"
    );
    assert_eq!(FrameProtocolError::AlreadyComplete.message(), "frame protocol is already complete");
}

#[test]
fn surface_frames_follow_the_acquisition_directive() {
    assert_eq!(
        plan_surface_frame(Some(AcquireOutcome::Success), false),
        SurfaceFrame::Render { reconfigure_after_present: false }
    );
    assert_eq!(
        plan_surface_frame(Some(AcquireOutcome::Suboptimal), false),
        SurfaceFrame::Render { reconfigure_after_present: true }
    );
    assert_eq!(
        plan_surface_frame(Some(AcquireOutcome::Timeout), false),
        SurfaceFrame::Skip { repair: SurfaceRepair::Keep, reason: PresentSkip::Timeout }
    );
    assert_eq!(
        plan_surface_frame(Some(AcquireOutcome::Occluded), true),
        SurfaceFrame::Skip { repair: SurfaceRepair::Keep, reason: PresentSkip::Occluded }
    );
    assert_eq!(
        plan_surface_frame(Some(AcquireOutcome::Outdated), false),
        SurfaceFrame::Skip { repair: SurfaceRepair::Reconfigure, reason: PresentSkip::Outdated }
    );
    assert_eq!(
        plan_surface_frame(Some(AcquireOutcome::Lost), false),
        SurfaceFrame::Skip { repair: SurfaceRepair::Recreate, reason: PresentSkip::Lost }
    );
    assert_eq!(
        plan_surface_frame(Some(AcquireOutcome::Validation), false),
        SurfaceFrame::Skip { repair: SurfaceRepair::Keep, reason: PresentSkip::Validation }
    );
}

#[test]
fn a_missing_surface_is_skipped_while_suspended_and_recreated_otherwise() {
    assert_eq!(
        plan_surface_frame(None, true),
        SurfaceFrame::Skip { repair: SurfaceRepair::Keep, reason: PresentSkip::Suspended }
    );
    assert_eq!(
        plan_surface_frame(None, false),
        SurfaceFrame::Skip { repair: SurfaceRepair::Recreate, reason: PresentSkip::Lost }
    );
}

#[test]
fn a_failed_surface_repair_reports_validation() {
    assert_eq!(frame_skip_after_repair(SurfaceRepair::Recreate, PresentSkip::Lost, true), FrameSkip::Lost);
    assert_eq!(frame_skip_after_repair(SurfaceRepair::Recreate, PresentSkip::Lost, false), FrameSkip::Validation);
    assert_eq!(
        frame_skip_after_repair(SurfaceRepair::Reconfigure, PresentSkip::Outdated, false),
        FrameSkip::Validation
    );
    assert_eq!(frame_skip_after_repair(SurfaceRepair::Keep, PresentSkip::Timeout, false), FrameSkip::Timeout);
    assert_eq!(frame_skip_after_repair(SurfaceRepair::Keep, PresentSkip::Suspended, true), FrameSkip::Suspended);
}
