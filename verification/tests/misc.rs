use gravlume_render::benchmark::{TraceBenchmarkError, benchmark_extent};
use gravlume_render::budget::DeviceLimits;
use gravlume_render::capabilities::{
    CompositeAlphaMode, OutputContract, OutputMode, PresentMode, SdrReason, SurfaceColorSpace, SurfaceSelection,
    TextureFormat, output_mapping_bits,
};
use gravlume_render::errors::{
    DeviceEventKind, GpuError, ResizeError, device_error_details, device_error_event, first_scope_error,
};
use gravlume_render::extent::RenderExtent;
use gravlume_render::renderer::reconfigure_needed;

#[test]
fn the_benchmark_extent_needs_its_texture_and_one_dispatch() {
    let extent = benchmark_extent(&DeviceLimits::webgpu_default()).expect("default limits run the benchmark");
    assert_eq!(extent, RenderExtent::new(1_280, 720).expect("nonzero"));
    let small_texture = DeviceLimits { max_texture_dimension_2d: 1_024, ..DeviceLimits::webgpu_default() };
    assert_eq!(benchmark_extent(&small_texture), Err(TraceBenchmarkError::UnsupportedExtent));
    let narrow_dispatch = DeviceLimits { max_compute_workgroups_per_dimension: 159, ..DeviceLimits::webgpu_default() };
    assert_eq!(benchmark_extent(&narrow_dispatch), Err(TraceBenchmarkError::UnsupportedExtent));
    let exact_dispatch = DeviceLimits { max_compute_workgroups_per_dimension: 160, ..DeviceLimits::webgpu_default() };
    assert!(benchmark_extent(&exact_dispatch).is_ok());
}

#[test]
fn scope_errors_prefer_memory_then_internal_then_validation() {
    assert_eq!(first_scope_error(Some("validation"), Some("memory"), Some("internal")), Some("memory"));
    assert_eq!(first_scope_error(Some("validation"), None, Some("internal")), Some("internal"));
    assert_eq!(first_scope_error(Some("validation"), None, None), Some("validation"));
    assert_eq!(first_scope_error::<&str>(None, None, None), None);
}

#[test]
fn device_errors_become_events_of_their_kind() {
    let (kind, message) = device_error_details(GpuError::OutOfMemory);
    assert_eq!(kind, DeviceEventKind::OutOfMemory);
    assert_eq!(message, "GPU out of memory");
    let event = device_error_event(GpuError::Validation { description: "bad layout".to_string() });
    assert_eq!(event.kind(), DeviceEventKind::Validation);
    assert_eq!(event.message(), "bad layout");
    assert!(!event.is_fatal());
    assert!(device_error_event(GpuError::Internal { description: String::new() }).is_fatal());
}

#[test]
fn budget_errors_are_recoverable_validation_events() {
    let error = ResizeError::NativePixelBudget { width: 1, height: 1, maximum_pixels: 0 };
    assert_eq!(error.kind(), DeviceEventKind::Validation);
    assert!(!error.is_fatal());
    let lost = ResizeError::GpuResource { stage: "configure", source: GpuError::OutOfMemory };
    assert_eq!(lost.kind(), DeviceEventKind::OutOfMemory);
    assert!(lost.is_fatal());
}

fn selection(format: TextureFormat, present_mode: PresentMode) -> SurfaceSelection {
    SurfaceSelection {
        format,
        color_space: SurfaceColorSpace::Srgb,
        present_mode,
        alpha_mode: CompositeAlphaMode::Opaque,
        output: OutputContract {
            mode: OutputMode::Sdr(SdrReason::DisplayReportedSdr),
            tone_map_headroom_bits: 1.0_f32.to_bits(),
            reference_white_scale_bits: 1.0_f32.to_bits(),
        },
    }
}

#[test]
fn surfaces_are_reconfigured_when_forced_or_changed() {
    let current = selection(TextureFormat::Bgra8UnormSrgb, PresentMode::Fifo);
    assert!(!reconfigure_needed(false, current, current));
    assert!(reconfigure_needed(true, current, current));
    assert!(reconfigure_needed(false, current, selection(TextureFormat::Bgra8UnormSrgb, PresentMode::Mailbox)));
    assert!(reconfigure_needed(false, current, selection(TextureFormat::Rgba8UnormSrgb, PresentMode::Fifo)));
}

#[test]
fn the_output_uniform_carries_headroom_and_white_scale() {
    let mut hdr = selection(TextureFormat::Rgba16Float, PresentMode::Fifo);
    hdr.output = OutputContract {
        mode: OutputMode::Hdr,
        tone_map_headroom_bits: 4.0_f32.to_bits(),
        reference_white_scale_bits: 2.5_f32.to_bits(),
    };
    assert_eq!(output_mapping_bits(hdr), [4.0_f32.to_bits(), 2.5_f32.to_bits(), 0, 0]);
}
