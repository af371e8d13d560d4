use gravlume_render::budget::{DeviceLimits, required_device_limits};
use gravlume_render::capabilities::{
    CapabilityError, CompositeAlphaMode, DeviceType, DynamicRange, FeatureSet, OutputMode, PresentMode, SdrReason,
    SurfaceCapabilities, SurfaceColorSpace, SurfaceFormatCapability, TextureFormat, UnknownDisplayState,
    check_baseline_adapter, display_transfer_label, hdr_scene_usages, presentation_pipeline_changed, select_surface,
    surface_configuration_changed,
};

const TEXTURE_USAGE_TEXTURE_BINDING: u32 = wgpu::TextureUsages::TEXTURE_BINDING.bits();
const TEXTURE_USAGE_STORAGE_BINDING: u32 = wgpu::TextureUsages::STORAGE_BINDING.bits();
const TEXTURE_USAGE_RENDER_ATTACHMENT: u32 = wgpu::TextureUsages::RENDER_ATTACHMENT.bits();

fn timestamp_query() -> FeatureSet {
    let [native, webgpu] = wgpu::Features::TIMESTAMP_QUERY.bits().0;
    FeatureSet { native, webgpu }
}

fn capabilities(formats: &[(TextureFormat, bool, bool)]) -> SurfaceCapabilities {
    SurfaceCapabilities {
        format_capabilities: formats
            .iter()
            .map(|(format, supports_srgb, supports_extended_srgb_linear)| SurfaceFormatCapability {
                format: *format,
                supports_srgb: *supports_srgb,
                supports_extended_srgb_linear: *supports_extended_srgb_linear,
            })
            .collect(),
        present_modes: vec![PresentMode::Fifo, PresentMode::Immediate],
        alpha_modes: vec![CompositeAlphaMode::PreMultiplied, CompositeAlphaMode::Opaque],
        usages: TEXTURE_USAGE_RENDER_ATTACHMENT,
    }
}

fn hdr(tone_map_headroom: f32, reference_white_scale: f32) -> DynamicRange {
    DynamicRange::Hdr {
        tone_map_headroom_bits: tone_map_headroom.to_bits(),
        reference_white_scale_bits: reference_white_scale.to_bits(),
    }
}

#[test]
fn output_resolver_selects_hdr_or_preserves_the_sdr_fallback_reason() {
    let caps = capabilities(&[(TextureFormat::Rgba16Float, false, true), (TextureFormat::Bgra8UnormSrgb, true, false)]);

    let selected = select_surface(&caps, hdr(4.0, 2.5)).expect("an HDR pair is available");

    assert_eq!(selected.format, TextureFormat::Rgba16Float);
    assert_eq!(selected.color_space, SurfaceColorSpace::ExtendedSrgbLinear);
    assert_eq!(selected.output_mode(), OutputMode::Hdr);
    assert_eq!(selected.present_mode, PresentMode::Fifo);
    assert_eq!(selected.alpha_mode, CompositeAlphaMode::Opaque);
    assert!((f32::from_bits(selected.output.tone_map_headroom_bits) - 4.0).abs() <= f32::EPSILON);
    assert!((f32::from_bits(selected.output.reference_white_scale_bits) - 2.5).abs() <= f32::EPSILON);
    let invalid = select_surface(&caps, hdr(f32::NAN, 1.0)).expect("invalid HDR metadata has a color-correct SDR fallback");
    assert_eq!(invalid.output_mode(), OutputMode::Sdr(SdrReason::DisplayStateQueryFailed));
    let fallback = select_surface(&caps, DynamicRange::Suppressed).expect("an SDR fallback is available");
    assert_eq!(fallback.format, TextureFormat::Bgra8UnormSrgb);
    assert_eq!(fallback.output_mode(), OutputMode::Sdr(SdrReason::SystemSuppressed));
    let unknown = select_surface(&caps, DynamicRange::Unknown(UnknownDisplayState::StateQueryFailed))
        .expect("unknown display state has a color-correct SDR fallback");
    assert_eq!(unknown.output_mode(), OutputMode::Sdr(SdrReason::DisplayStateQueryFailed));

    let manual_caps = capabilities(&[(TextureFormat::Bgra8Unorm, true, false)]);
    let manual = select_surface(&manual_caps, DynamicRange::Sdr).expect("a plain eight-bit SDR pair can use shader encoding");
    assert_eq!(manual.fragment_entry(), "present_sdr_to_gamma_target");
}

#[test]
fn surface_selection_rejects_a_surface_without_srgb_pair() {
    let caps = capabilities(&[(TextureFormat::Rgba16Float, false, false)]);

    assert_eq!(select_surface(&caps, hdr(1.0, 1.0)), Err(CapabilityError::NoSdrSurfacePair));
}

#[test]
fn adapter_gate_enforces_the_native_release_contract() {
    let required_hdr_usages = TEXTURE_USAGE_STORAGE_BINDING | TEXTURE_USAGE_TEXTURE_BINDING | TEXTURE_USAGE_RENDER_ATTACHMENT;
    let baseline = FeatureSet::baseline();
    let empty = FeatureSet { native: 0, webgpu: 0 };
    let cases = [
        ("software adapter", DeviceType::Cpu, true, baseline, required_hdr_usages, Err(CapabilityError::SoftwareAdapter)),
        (
            "downlevel adapter",
            DeviceType::IntegratedGpu,
            false,
            baseline,
            required_hdr_usages,
            Err(CapabilityError::DownlevelAdapter),
        ),
        (
            "missing timestamp queries",
            DeviceType::IntegratedGpu,
            true,
            empty,
            required_hdr_usages,
            Err(CapabilityError::MissingFeatures(timestamp_query())),
        ),
        (
            "incomplete HDR usages",
            DeviceType::DiscreteGpu,
            true,
            baseline,
            TEXTURE_USAGE_TEXTURE_BINDING,
            Err(CapabilityError::MissingHdrTextureUsages(TEXTURE_USAGE_STORAGE_BINDING | TEXTURE_USAGE_RENDER_ATTACHMENT)),
        ),
        ("supported adapter", DeviceType::IntegratedGpu, true, baseline, required_hdr_usages, Ok(())),
    ];

    for (case, device_type, compliant, features, usages, expected) in cases {
        assert_eq!(check_baseline_adapter(device_type, compliant, features, usages), expected, "{case}");
    }
    assert_eq!(required_hdr_usages, hdr_scene_usages());
    assert_eq!(baseline, timestamp_query());
    assert_eq!(baseline, FeatureSet { native: 0, webgpu: 0x80 });
}

#[test]
fn selection_falls_back_to_the_first_offered_modes() {
    let mut caps = capabilities(&[(TextureFormat::Rgba8UnormSrgb, true, false)]);
    caps.present_modes = vec![PresentMode::Mailbox, PresentMode::Immediate];
    caps.alpha_modes = vec![CompositeAlphaMode::PostMultiplied];
    let selected = select_surface(&caps, DynamicRange::Sdr).expect("an sRGB pair is offered");
    assert_eq!(selected.present_mode, PresentMode::Mailbox);
    assert_eq!(selected.alpha_mode, CompositeAlphaMode::PostMultiplied);
    assert_eq!(selected.output_mode(), OutputMode::Sdr(SdrReason::DisplayReportedSdr));
    assert_eq!(selected.fragment_entry(), "present_sdr_to_linear_target");
}

#[test]
fn each_missing_surface_capability_has_its_error() {
    let mut no_attachment = capabilities(&[(TextureFormat::Bgra8UnormSrgb, true, false)]);
    no_attachment.usages = 0;
    assert_eq!(select_surface(&no_attachment, DynamicRange::Sdr), Err(CapabilityError::MissingRenderAttachment));
    let mut no_present = capabilities(&[(TextureFormat::Bgra8UnormSrgb, true, false)]);
    no_present.present_modes.clear();
    assert_eq!(select_surface(&no_present, DynamicRange::Sdr), Err(CapabilityError::NoPresentMode));
    let mut no_alpha = capabilities(&[(TextureFormat::Bgra8UnormSrgb, true, false)]);
    no_alpha.alpha_modes.clear();
    assert_eq!(select_surface(&no_alpha, DynamicRange::Sdr), Err(CapabilityError::NoAlphaMode));
}

#[test]
fn a_valid_hdr_display_without_the_pair_keeps_its_reason() {
    let caps = capabilities(&[(TextureFormat::Bgra8UnormSrgb, true, false)]);
    let selected = select_surface(&caps, hdr(2.0, 1.0)).expect("SDR fallback");
    assert_eq!(selected.output_mode(), OutputMode::Sdr(SdrReason::HdrSurfacePairMissing));
    assert_eq!(selected.color_space, SurfaceColorSpace::Srgb);
    assert_eq!(f32::from_bits(selected.output.tone_map_headroom_bits), 1.0);
    let below_reference = select_surface(&caps, hdr(0.5, 1.0)).expect("SDR fallback");
    assert_eq!(below_reference.output_mode(), OutputMode::Sdr(SdrReason::DisplayStateQueryFailed));
}

#[test]
fn selection_changes_are_classified() {
    let caps = capabilities(&[(TextureFormat::Rgba16Float, false, true), (TextureFormat::Bgra8UnormSrgb, true, false)]);
    let hdr_selection = select_surface(&caps, hdr(4.0, 2.5)).expect("HDR");
    let sdr_selection = select_surface(&caps, DynamicRange::Sdr).expect("SDR");
    let suppressed = select_surface(&caps, DynamicRange::Suppressed).expect("SDR");
    assert!(surface_configuration_changed(hdr_selection, sdr_selection));
    assert!(presentation_pipeline_changed(hdr_selection, sdr_selection));
    assert!(!surface_configuration_changed(sdr_selection, suppressed));
    assert!(!presentation_pipeline_changed(sdr_selection, suppressed));
    assert_eq!(display_transfer_label(hdr_selection), "HDR");
    assert_eq!(display_transfer_label(sdr_selection), "SDR");
}

#[test]
fn device_limits_do_not_copy_adapter_buffer_capacity() {
    let adapter = DeviceLimits {
        max_texture_dimension_2d: 16_384,
        min_storage_buffer_offset_alignment: 64,
        max_storage_buffer_binding_size: 1 << 30,
        max_buffer_size: 2 << 30,
        ..DeviceLimits::webgpu_default()
    };

    let required = required_device_limits(adapter);

    assert_eq!(required.max_texture_dimension_2d, 16_384);
    assert_eq!(required.min_storage_buffer_offset_alignment, 64);
    assert_eq!(required.max_storage_buffer_binding_size, DeviceLimits::webgpu_default().max_storage_buffer_binding_size);
    assert_eq!(required.max_buffer_size, DeviceLimits::webgpu_default().max_buffer_size);
}
