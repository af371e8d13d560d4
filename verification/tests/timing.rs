use gravlume_render::timing::{
    QUERY_BYTES, QueryTicks, ReadbackEvent, TimestampReadback, TimingError, decode_query_ticks, elapsed_ticks,
    query_bytes,
};

fn pair_bytes(ticks: [u64; 2]) -> Vec<u8> {
    ticks.into_iter().flat_map(u64::to_le_bytes).collect()
}

#[test]
fn trace_timestamp_pair_roundtrips() {
    for ticks in [[0, 0], [1, 2], [u64::MAX, 0], [0x0123_4567_89ab_cdef, 0xfedc_ba98_7654_3210], [u64::MAX, u64::MAX]] {
        assert_eq!(decode_query_ticks(&pair_bytes(ticks)), Some(QueryTicks { beginning: ticks[0], end: ticks[1] }));
    }
}

#[test]
fn timestamp_decoder_rejects_incorrect_lengths_around_the_pair_boundary() {
    for length in 0..=64 {
        if length == 16 {
            continue;
        }
        assert_eq!(decode_query_ticks(&vec![0; length]), None);
    }
}

#[test]
fn trace_duration_is_saturating_and_nonnegative() {
    assert_eq!(elapsed_ticks(QueryTicks { beginning: 10, end: 25 }), 15);
    assert_eq!(elapsed_ticks(QueryTicks { beginning: 25, end: 10 }), 0);
    assert_eq!(elapsed_ticks(QueryTicks { beginning: 0, end: u64::MAX }), u64::MAX);
}

#[test]
fn timing_map_failure_does_not_emit_a_secondary_unmap_validation_error() {
    let mut timings = TimestampReadback::new();
    timings.encode_readback(17_u64).expect("the slot is free");

    assert!(matches!(timings.complete(ReadbackEvent::MapFailed), Err(TimingError::MapFailed)));
    assert!(!timings.has_pending_readback());
    assert!(matches!(timings.complete(ReadbackEvent::MapFailed), Ok(None)));
}

#[test]
fn one_shot_readback_completes_after_submission_goes_idle() {
    let mut timings = TimestampReadback::new();
    timings.encode_readback(17_u64).expect("timestamp readback is available");
    assert!(matches!(timings.complete(ReadbackEvent::NotReady), Ok(None)));
    assert!(timings.has_pending_readback());

    let (context, ticks) = timings
        .complete(ReadbackEvent::Mapped(pair_bytes([100, 160])))
        .expect("timestamp readback succeeds")
        .expect("timestamp readback completed after its submission");

    assert_eq!(context, 17);
    assert_eq!(elapsed_ticks(ticks), 60);
    assert!(!timings.has_pending_readback());
    assert!(timings.capture_available());
}

#[test]
fn a_second_readback_is_refused_while_one_is_pending() {
    let mut timings = TimestampReadback::new();
    timings.encode_readback(1_u64).expect("free");
    assert_eq!(timings.encode_readback(2_u64), Err(TimingError::ReadbackAlreadyPending));
    let (context, _) = timings.complete(ReadbackEvent::Mapped(pair_bytes([0, 1]))).expect("ok").expect("mapped");
    assert_eq!(context, 1);
}

#[test]
fn each_callback_failure_has_its_error_and_frees_the_slot() {
    let cases = [
        (ReadbackEvent::Mapped(vec![0; 15]), TimingError::InvalidReadback),
        (ReadbackEvent::MappedRangeUnavailable, TimingError::MappedRange),
        (ReadbackEvent::Disconnected, TimingError::CallbackDisconnected),
    ];
    for (event, expected) in cases {
        let mut timings = TimestampReadback::new();
        timings.encode_readback(3_u64).expect("free");
        assert_eq!(timings.complete(event).map(|_| ()), Err(expected));
        assert!(timings.capture_available());
    }
}

#[test]
fn the_resolved_pair_is_two_eight_byte_queries() {
    assert_eq!(query_bytes(), 16);
    assert_eq!(QUERY_BYTES, 16);
}
