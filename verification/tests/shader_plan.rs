use gravlume_render::extent::RenderExtent;
use gravlume_render::plan::{
    BLACKBODY_LUT_BYTE_SIZE, CaptureSpecError, DispatchGrid, TRACE_DISPATCH_BYTES, TraceBinding, TraceBindingKind,
    TracePlan, TraceTargetKind, accelerated_capture_spec, event_policy_capture_spec, refines_batch, shadow_dispatch,
    size_of, trace_bind_group_layout_entries,
};
use gravlume_render::shader::{FRAGMENT_COUNT, ShaderFragment, ShaderLibrary, ShaderProgram, suffix_of};
use gravlume_render::tiles::TileRegion;

fn library() -> ShaderLibrary {
    let names = [
        "protocol", "dynamics", "events", "integration", "lensing", "acceleration", "shadow", "transport",
        "bolometric", "blackbody", "sample", "analytic_sample", "surface_sample", "capture", "surface_capture",
        "footprint", "accelerated_capture", "initial_rays", "invariant_gate", "event_policy",
    ];
    ShaderLibrary::new(names.iter().map(|name| name.to_string()).collect()).expect("one source per fragment")
}

#[test]
fn a_library_needs_one_source_per_fragment() {
    assert!(ShaderLibrary::new(vec![String::new(); FRAGMENT_COUNT - 1]).is_none());
    assert!(ShaderLibrary::new(vec![String::new(); FRAGMENT_COUNT]).is_some());
    assert_eq!(library().source(ShaderFragment::LensingPreview), "lensing");
}

#[test]
fn programs_join_the_trace_core_and_their_fragments_with_newlines() {
    let library = library();
    assert_eq!(library.accelerated_scene(), "protocol\ndynamics\nevents\nintegration\nlensing\nacceleration");
    assert_eq!(
        library.blackbody_surface_scene(),
        "protocol\ndynamics\nevents\nintegration\nlensing\ntransport\nblackbody"
    );
    assert_eq!(library.trace_capture(), "protocol\ndynamics\nevents\nintegration\nlensing\ncapture");
    assert_eq!(
        library.event_policy_capture(),
        "protocol\ndynamics\nevents\nintegration\nlensing\ncapture\nevent_policy"
    );
    assert_eq!(suffix_of(ShaderProgram::ShadowCoverage).len(), 3);
}

#[test]
fn empty_fragments_add_no_separator_before_any_text() {
    let mut sources = vec![String::new(); FRAGMENT_COUNT];
    sources[4] = "lensing".to_string();
    sources[5] = "acceleration".to_string();
    let library = ShaderLibrary::new(sources).expect("complete");
    assert_eq!(library.accelerated_scene(), "lensing\nacceleration");
}

#[test]
fn plans_choose_programs_entry_points_and_passes() {
    let sky = TracePlan::AcceleratedSky.presentation_spec();
    assert_eq!(sky.program, ShaderProgram::AcceleratedScene);
    assert_eq!(sky.entry_point, "trace_scene_accelerated");
    assert_eq!(sky.escape_map_node_entry_point, Some("trace_escape_map_nodes"));
    assert!(sky.has_shadow_refinement);
    let blackbody = TracePlan::EquatorialBlackbodySurface.presentation_spec();
    assert_eq!(blackbody.entry_point, "trace_blackbody_surface_scene");
    assert_eq!(blackbody.escape_map_node_entry_point, None);
    assert!(TracePlan::EquatorialBlackbodySurface.has_blackbody_lut());
    assert!(!TracePlan::EquatorialBolometricSurface.has_blackbody_lut());
    assert!(!TracePlan::AcceleratedSky.surface_events_enabled());
    assert!(TracePlan::EquatorialBolometricSurface.surface_events_enabled());
    assert_eq!(TracePlan::EquatorialBolometricSurface.capture_spec().entry_point, "capture_surface_trace_scene");
    assert_eq!(accelerated_capture_spec().target_kind, TraceTargetKind::Diagnostic);
    assert_eq!(event_policy_capture_spec().entry_point, "write_event_policy_cases");
}

#[test]
fn surface_captures_require_a_surface() {
    assert_eq!(
        TracePlan::AcceleratedSky.footprint_capture_spec().map(|spec| spec.program),
        Err(CaptureSpecError::SurfaceFootprintRequiresSurface)
    );
    assert_eq!(
        TracePlan::AcceleratedSky.transport_capture_spec().map(|spec| spec.program),
        Err(CaptureSpecError::SurfaceTransportRequiresSurface)
    );
    let transport = TracePlan::EquatorialBlackbodySurface.transport_capture_spec().expect("surface");
    assert_eq!(transport.entry_point, "capture_surface_transport_case");
    assert_eq!(transport.program, ShaderProgram::BlackbodySurfaceCapture);
    let footprint = TracePlan::EquatorialBolometricSurface.footprint_capture_spec().expect("surface");
    assert_eq!(footprint.program, ShaderProgram::BolometricSurfaceFootprintCapture);
}

#[test]
fn only_the_sky_plan_needs_scratch() {
    let extent = RenderExtent::new(3_840, 2_160).expect("nonzero");
    assert_eq!(TracePlan::AcceleratedSky.scratch_bytes(extent), 2_271_620);
    assert_eq!(TracePlan::EquatorialBolometricSurface.scratch_bytes(extent), 0);
}

#[test]
fn bind_group_layouts_grow_with_records_escape_map_and_table() {
    let presentation = trace_bind_group_layout_entries(TraceTargetKind::Presentation, false, false, 144);
    assert_eq!(
        presentation,
        vec![
            TraceBinding { binding: 0, kind: TraceBindingKind::Uniform { min_binding_size: 144 } },
            TraceBinding { binding: 1, kind: TraceBindingKind::OutputTexture },
            TraceBinding { binding: 2, kind: TraceBindingKind::Uniform { min_binding_size: TRACE_DISPATCH_BYTES } },
        ]
    );
    let everything = trace_bind_group_layout_entries(TraceTargetKind::Diagnostic, true, true, 144);
    let bindings: Vec<u32> = everything.iter().map(|entry| entry.binding).collect();
    assert_eq!(bindings, [0, 1, 2, 3, 4, 5, 6, 7, 8]);
    assert_eq!(
        everything[8].kind,
        TraceBindingKind::Storage { read_only: true, min_binding_size: BLACKBODY_LUT_BYTE_SIZE }
    );
}

#[test]
fn refinement_runs_only_on_the_finishing_batch() {
    let extent = RenderExtent::new(16, 8).expect("nonzero");
    let last = TileRegion::new([1, 0], [1, 1]);
    let first = TileRegion::new([0, 0], [1, 1]);
    assert!(refines_batch(true, true, last, extent));
    assert!(!refines_batch(true, true, first, extent));
    assert!(!refines_batch(false, true, last, extent));
    assert!(!refines_batch(true, false, last, extent));
    assert_eq!(shadow_dispatch(RenderExtent::new(17, 9).expect("nonzero"), 130), ([3, 2], 3));
}

#[test]
fn dispatch_grids_and_sizes() {
    let grid = DispatchGrid::for_extent(RenderExtent::new(17, 16).expect("nonzero"));
    assert_eq!((grid.x(), grid.y()), (3, 2));
    assert_eq!(size_of::<[u32; 4]>(), 16);
    assert_eq!(size_of::<u64>(), 8);
}
