use gravlume_render::capture::ScientificPixelKind;
use gravlume_render::extent::RenderExtent;
use gravlume_render::inspection::{
    EVENT_CANDIDATE_ESCAPE, EVENT_CANDIDATE_HORIZON, EVENT_CANDIDATE_SINGULARITY, EVENT_CANDIDATE_SURFACE,
    INSPECTION_READBACK_BYTES, InspectionMapEvent, InspectionStep, KNOWN_EVENT_CANDIDATES, KNOWN_NUMERICAL_FLAGS,
    NUMERICAL_FAILURE_TAG, RecordMetadata, SURFACE_RADIANCE_TAG, SampleBranchKey, SampleInspectionError,
    SampleInspectionRequestError, SampleInspectionSlot, SamplePolarSide, SurfaceEvaluationKind, decode_branch_key,
    decode_readback_words, decode_record_metadata, require_scene_tag, surface_evaluation_kind,
    validate_terminal_diagnostics,
};
use gravlume_render::tiles::TraceTermination;

fn fixture_extent() -> RenderExtent {
    RenderExtent::new(64, 48).expect("nonzero")
}

const FIXTURE_PIXEL: [u32; 2] = [5, 7];

#[test]
fn numerical_failure_uses_an_explicit_zero_branch_sentinel() {
    assert_eq!(
        decode_branch_key(TraceTermination::NumericalFailure, [0; 4]).expect("zero failure sentinel decodes"),
        None
    );
}

#[test]
fn terminal_diagnostics_match_the_shader_producer_table() {
    let terminations = [
        TraceTermination::HorizonCrossing,
        TraceTermination::Escape,
        TraceTermination::SingularityGuard,
        TraceTermination::StepExhaustion,
        TraceTermination::NumericalFailure,
        TraceTermination::Uncertain,
        TraceTermination::EquatorialSurface,
    ];

    for termination in terminations {
        for numerical_flags in 0..=KNOWN_NUMERICAL_FLAGS {
            for event_candidates in 0..=KNOWN_EVENT_CANDIDATES {
                let expected = match termination {
                    TraceTermination::HorizonCrossing => numerical_flags == 0 && event_candidates == EVENT_CANDIDATE_HORIZON,
                    TraceTermination::Escape => numerical_flags == 0 && event_candidates == EVENT_CANDIDATE_ESCAPE,
                    TraceTermination::SingularityGuard => {
                        numerical_flags == 0 && event_candidates == EVENT_CANDIDATE_SINGULARITY
                    }
                    TraceTermination::StepExhaustion => numerical_flags == 0 && event_candidates == 0,
                    TraceTermination::NumericalFailure => numerical_flags != 0 && event_candidates == 0,
                    TraceTermination::Uncertain => numerical_flags == 0 && event_candidates != 0,
                    TraceTermination::EquatorialSurface => {
                        numerical_flags == 0 && event_candidates == EVENT_CANDIDATE_SURFACE
                    }
                };
                assert_eq!(
                    validate_terminal_diagnostics(termination, numerical_flags, event_candidates).is_ok(),
                    expected,
                    "{termination:?}, flags={numerical_flags}, candidates={event_candidates}"
                );
            }
        }
    }
}

#[test]
fn retrace_decoder_rejects_impossible_escape_diagnostics() {
    for (numerical_flags, event_candidates) in [(1, EVENT_CANDIDATE_ESCAPE), (0, 0), (0, EVENT_CANDIDATE_HORIZON)] {
        let metadata = [u32::from(TraceTermination::Escape), numerical_flags, 1, event_candidates];
        assert!(matches!(
            decode_record_metadata(metadata),
            Err(SampleInspectionError::InvalidRecord { field: "termination diagnostics" })
        ));
    }
}

#[test]
fn record_metadata_rejects_unknown_terminations_and_bits() {
    assert_eq!(decode_record_metadata([0, 0, 1, 2]), Err(SampleInspectionError::UnknownTermination(0)));
    assert_eq!(decode_record_metadata([8, 0, 1, 2]), Err(SampleInspectionError::UnknownTermination(8)));
    assert_eq!(
        decode_record_metadata([5, 8, 1, 0]),
        Err(SampleInspectionError::InvalidRecord { field: "failure flags" })
    );
    assert_eq!(
        decode_record_metadata([1, 0, 1, 16]),
        Err(SampleInspectionError::InvalidRecord { field: "event candidates" })
    );
    assert_eq!(
        decode_record_metadata([2, 0, 31, EVENT_CANDIDATE_ESCAPE]),
        Ok(RecordMetadata {
            termination: TraceTermination::Escape,
            numerical_flags: 0,
            steps: 31,
            event_candidates: EVENT_CANDIDATE_ESCAPE,
        })
    );
}

#[test]
fn branch_keys_decode_the_polar_side_and_signed_winding() {
    assert_eq!(
        decode_branch_key(TraceTermination::Escape, [3, 1, u32::MAX, 2]),
        Ok(Some(SampleBranchKey {
            initial_polar_side: SamplePolarSide::Positive,
            radial_turnings: 3,
            equatorial_crossings: 1,
            azimuth_winding: -1,
        }))
    );
    assert_eq!(decode_branch_key(TraceTermination::Uncertain, [9, 9, 9, 1]), Ok(None));
    assert_eq!(decode_branch_key(TraceTermination::Escape, [0, 0, 0, 3]), Err(SampleInspectionError::UnknownPolarSide(3)));
    assert_eq!(
        decode_branch_key(TraceTermination::NumericalFailure, [0, 0, 1, 0]),
        Err(SampleInspectionError::InvalidRecord { field: "numerical-failure branch" })
    );
    let key = decode_branch_key(TraceTermination::HorizonCrossing, [0, 4, 0x8000_0000, 0])
        .expect("known side")
        .expect("a horizon crossing has a branch");
    assert_eq!(key.initial_polar_side(), SamplePolarSide::Negative);
    assert_eq!(key.equatorial_crossings(), 4);
    assert_eq!(key.azimuth_winding(), i32::MIN);
}

#[test]
fn scene_tags_must_match_the_termination() {
    assert!(require_scene_tag(0x3f80_0000, 1.0_f32.to_bits()).is_ok());
    assert_eq!(
        require_scene_tag(0, 1.0_f32.to_bits()),
        Err(SampleInspectionError::InvalidRecord { field: "termination/scene tag" })
    );
    assert_eq!(SURFACE_RADIANCE_TAG, 2.0_f32.to_bits());
    assert_eq!(NUMERICAL_FAILURE_TAG, (-5.0_f32).to_bits());
    assert_eq!(surface_evaluation_kind(SURFACE_RADIANCE_TAG), Ok(SurfaceEvaluationKind::Radiance));
    assert_eq!(surface_evaluation_kind(NUMERICAL_FAILURE_TAG), Ok(SurfaceEvaluationKind::NumericalFailure));
    assert_eq!(
        surface_evaluation_kind(0),
        Err(SampleInspectionError::InvalidRecord { field: "termination/scene tag" })
    );
}

#[test]
fn tests_map_failure_does_not_emit_a_secondary_unmap_validation_error() {
    let mut slot = SampleInspectionSlot::new();
    let ticket = slot.request(fixture_extent(), 23, FIXTURE_PIXEL).expect("the slot is free");

    let completion = slot.poll(Some(23), InspectionMapEvent::MapFailed).expect("map failure produces one terminal event");

    assert_eq!(completion.ticket(), ticket);
    assert_eq!(completion, InspectionStep::Failed { ticket, error: SampleInspectionError::MapFailed });
    assert!(!slot.is_pending());
    assert!(slot.poll(Some(23), InspectionMapEvent::MapFailed).is_none());
}

#[test]
fn cancelled_request_drains_before_the_fixed_slot_is_reused() {
    let extent = fixture_extent();
    let mut slot = SampleInspectionSlot::new();

    let request = slot.request(extent, 7, FIXTURE_PIXEL).expect("the fixed slot accepts its first request");
    assert_eq!(slot.request(extent, 7, FIXTURE_PIXEL), Err(SampleInspectionRequestError::Busy));
    slot.cancel_active();
    assert!(slot.is_pending());

    assert!(slot.poll(Some(7), InspectionMapEvent::NotReady).is_none());
    assert!(slot.is_pending());
    let completion = slot.poll(Some(7), InspectionMapEvent::Mapped).expect("the drained request completes");
    assert_eq!(completion, InspectionStep::Cancelled { ticket: request });
    assert!(!slot.is_pending());

    slot.request(extent, 7, FIXTURE_PIXEL).expect("the slot is reusable only after cancellation drains");
}

#[test]
fn completion_binds_ticket_and_fixed_retrace_method() {
    const PUBLISHED_TEXEL: [u16; 4] = [0x3c00, 0x4000, 0x4200, 0x3c00];
    let extent = fixture_extent();
    let mut slot = SampleInspectionSlot::new();

    let request = slot.request(extent, 11, FIXTURE_PIXEL).expect("inspection request is accepted");
    let completion = slot.poll(Some(11), InspectionMapEvent::Mapped).expect("the mapped request completes");
    assert_eq!(completion, InspectionStep::Decode { ticket: request });

    assert_eq!(request.generation(), 11);
    assert_eq!(request.extent(), [extent.width(), extent.height()]);
    assert_eq!(request.pixel(), FIXTURE_PIXEL);

    let mut readback = vec![0_u8; INSPECTION_READBACK_BYTES as usize];
    for (channel, bits) in PUBLISHED_TEXEL.into_iter().enumerate() {
        let offset = 96 + channel * 2;
        readback[offset..offset + 2].copy_from_slice(&bits.to_le_bytes());
    }
    readback[0..4].copy_from_slice(&7_u32.to_le_bytes());
    let decoded = decode_readback_words(&readback).expect("the readback has the record and one texel");
    assert_eq!(decoded.record_words.len(), 24);
    assert_eq!(decoded.record_words[0], 7);
    assert_eq!(decoded.published_texel.rgba16_float_bits(), PUBLISHED_TEXEL);
    assert_eq!(decoded.published_texel.kind(), ScientificPixelKind::AnalyticEscapePreview);
}

#[test]
fn publication_mismatch_discards_the_result_once_and_releases_the_slot() {
    let mut slot = SampleInspectionSlot::new();

    let request = slot.request(fixture_extent(), 17, FIXTURE_PIXEL).expect("inspection request is accepted");

    let completion = slot.poll(Some(18), InspectionMapEvent::Mapped).expect("the request completes");
    assert_eq!(completion.ticket(), request);
    assert_eq!(completion, InspectionStep::Cancelled { ticket: request });
    assert!(slot.poll(Some(18), InspectionMapEvent::Mapped).is_none());
    assert!(!slot.is_pending());
}

#[test]
fn requests_outside_the_extent_are_refused_before_the_slot_is_checked() {
    let extent = fixture_extent();
    let mut slot = SampleInspectionSlot::new();
    assert_eq!(
        slot.request(extent, 1, [64, 0]),
        Err(SampleInspectionRequestError::SampleOutsideExtent { pixel: [64, 0], extent: [64, 48] })
    );
    assert!(!slot.is_pending());
    slot.request(extent, 1, [63, 47]).expect("the last pixel is inside");
    assert_eq!(
        slot.request(extent, 1, [0, 48]),
        Err(SampleInspectionRequestError::SampleOutsideExtent { pixel: [0, 48], extent: [64, 48] })
    );
}

#[test]
fn a_disconnected_callback_fails_the_current_request() {
    let mut slot = SampleInspectionSlot::new();
    let ticket = slot.request(fixture_extent(), 4, FIXTURE_PIXEL).expect("free");
    assert_eq!(
        slot.poll(Some(4), InspectionMapEvent::Disconnected),
        Some(InspectionStep::Failed { ticket, error: SampleInspectionError::CallbackDisconnected })
    );
    let ticket = slot.request(fixture_extent(), 5, FIXTURE_PIXEL).expect("free again");
    assert_eq!(slot.poll(None, InspectionMapEvent::Disconnected), Some(InspectionStep::Cancelled { ticket }));
}

#[test]
fn readbacks_of_another_size_are_invalid() {
    assert_eq!(decode_readback_words(&[0; 103]).map(|_| ()), Err(SampleInspectionError::InvalidReadback));
    assert_eq!(decode_readback_words(&[0; 105]).map(|_| ()), Err(SampleInspectionError::InvalidReadback));
}
