//! Device limits and the transactional memory budget of size-dependent frame resources.

use vstd::prelude::*;

use crate::errors::ResizeError;
use crate::extent::RenderExtent;
use crate::tiles::{TRACE_RECORD_PLANE_ELEMENT_SIZE, saturating_mul_u64, saturating_product, trace_record_plane_size};

verus! {

/// The native trace policy allows at most a 3840x2160 extent's pixels.
pub const MAXIMUM_NATIVE_TRACE_PIXELS: u64 = 8_294_400;

pub const HDR_BYTES_PER_PIXEL: u64 = 8;

pub const UI_BYTES_PER_PIXEL: u64 = 4;

/// 256 MiB for every core resource alive during a rebuild.
pub const MAXIMUM_CORE_RESOURCE_BYTES: u64 = 268_435_456;

/// The device limits the renderer reads.
#[derive(Clone, Copy, Debug, PartialEq, Eq, Structural)]
pub struct DeviceLimits {
    pub max_texture_dimension_1d: u32,
    pub max_texture_dimension_2d: u32,
    pub max_texture_dimension_3d: u32,
    pub max_storage_buffer_binding_size: u64,
    pub max_buffer_size: u64,
    pub min_uniform_buffer_offset_alignment: u32,
    pub min_storage_buffer_offset_alignment: u32,
    pub max_compute_workgroups_per_dimension: u32,
}

/// The read limits of `wgpu::Limits::default()`, whose source (`Limits::defaults` in
/// wgpu-types) sets the texture dimensions to 8192, 8192 and 2048, the storage binding and
/// buffer sizes to 128 MiB and 256 MiB, both offset alignments to 256 and the workgroups per
/// dimension to 65535.
#[verifier::external_body]
fn wgpu_default_limits() -> (limits: DeviceLimits)
    ensures
        limits == webgpu_default_limits(),
{
    let defaults = wgpu::Limits::default();
    DeviceLimits {
        max_texture_dimension_1d: defaults.max_texture_dimension_1d,
        max_texture_dimension_2d: defaults.max_texture_dimension_2d,
        max_texture_dimension_3d: defaults.max_texture_dimension_3d,
        max_storage_buffer_binding_size: defaults.max_storage_buffer_binding_size,
        max_buffer_size: defaults.max_buffer_size,
        min_uniform_buffer_offset_alignment: defaults.min_uniform_buffer_offset_alignment,
        min_storage_buffer_offset_alignment: defaults.min_storage_buffer_offset_alignment,
        max_compute_workgroups_per_dimension: defaults.max_compute_workgroups_per_dimension,
    }
}

/// The WebGPU default limits.
pub open spec fn webgpu_default_limits() -> DeviceLimits {
    DeviceLimits {
        max_texture_dimension_1d: 8192,
        max_texture_dimension_2d: 8192,
        max_texture_dimension_3d: 2048,
        max_storage_buffer_binding_size: 134_217_728,
        max_buffer_size: 268_435_456,
        min_uniform_buffer_offset_alignment: 256,
        min_storage_buffer_offset_alignment: 256,
        max_compute_workgroups_per_dimension: 65535,
    }
}

impl DeviceLimits {
    /// The WebGPU default limits.
    pub fn webgpu_default() -> (limits: Self)
        ensures
            limits == webgpu_default_limits(),
    {
        wgpu_default_limits()
    }
}

/// The limits to request from a device: the defaults with the adapter's texture resolution
/// and buffer offset alignments, and never the adapter's larger buffer capacities.
pub fn required_device_limits(adapter: DeviceLimits) -> (required: DeviceLimits)
    ensures
        required == (DeviceLimits {
            max_texture_dimension_1d: adapter.max_texture_dimension_1d,
            max_texture_dimension_2d: adapter.max_texture_dimension_2d,
            max_texture_dimension_3d: adapter.max_texture_dimension_3d,
            min_uniform_buffer_offset_alignment: adapter.min_uniform_buffer_offset_alignment,
            min_storage_buffer_offset_alignment: adapter.min_storage_buffer_offset_alignment,
            ..webgpu_default_limits()
        }),
{
    let defaults = DeviceLimits::webgpu_default();
    let with_resolution = DeviceLimits {
        max_texture_dimension_1d: adapter.max_texture_dimension_1d,
        max_texture_dimension_2d: adapter.max_texture_dimension_2d,
        max_texture_dimension_3d: adapter.max_texture_dimension_3d,
        ..defaults
    };
    DeviceLimits {
        min_uniform_buffer_offset_alignment: adapter.min_uniform_buffer_offset_alignment,
        min_storage_buffer_offset_alignment: adapter.min_storage_buffer_offset_alignment,
        ..with_resolution
    }
}

pub open spec fn pixels_of(extent: (u32, u32)) -> int {
    extent.0 * extent.1
}

pub fn extent_pixels(extent: RenderExtent) -> (pixels: u64)
    ensures
        pixels == pixels_of(extent@),
{
    let width = extent.width() as u64;
    let height = extent.height() as u64;
    proof {
        assert(width * height <= 0xffff_ffffu64 * 0xffff_ffffu64) by (nonlinear_arith)
            requires
                width <= 0xffff_ffffu64,
                height <= 0xffff_ffffu64,
        ;
    }
    width * height
}

/// `a + b`, or `u64::MAX` when the sum does not fit.
pub open spec fn saturating_sum(a: int, b: int) -> int {
    if a + b > u64::MAX { u64::MAX as int } else { a + b }
}

/// The size-dependent resources of one installed frame: UI overlay pixels, candidate trace
/// pixels, and trace scratch bytes.
#[derive(Clone, Copy, Debug, PartialEq, Eq, Structural)]
pub struct FrameResourceFootprint {
    pub ui: u64,
    pub candidate: u64,
    pub trace_scratch: u64,
}

pub open spec fn footprint_bytes(footprint: FrameResourceFootprint) -> int {
    saturating_sum(
        saturating_sum(
            saturating_product(footprint.ui as int, UI_BYTES_PER_PIXEL as int),
            saturating_product(footprint.candidate as int, HDR_BYTES_PER_PIXEL as int),
        ),
        footprint.trace_scratch as int,
    )
}

impl FrameResourceFootprint {
    pub fn empty() -> (footprint: Self)
        ensures
            footprint.ui == 0 && footprint.candidate == 0 && footprint.trace_scratch == 0,
    {
        FrameResourceFootprint { ui: 0, candidate: 0, trace_scratch: 0 }
    }

    /// A frame whose candidate trace was published: only its UI overlay remains.
    pub fn display_only(extent: RenderExtent) -> (footprint: Self)
        ensures
            footprint.ui == pixels_of(extent@),
            footprint.candidate == 0,
            footprint.trace_scratch == 0,
    {
        FrameResourceFootprint { ui: extent_pixels(extent), candidate: 0, trace_scratch: 0 }
    }

    /// A frame that still holds its candidate trace and the trace's scratch memory.
    pub fn tracing(extent: RenderExtent, trace_scratch: u64) -> (footprint: Self)
        ensures
            footprint.ui == pixels_of(extent@),
            footprint.candidate == pixels_of(extent@),
            footprint.trace_scratch == trace_scratch,
    {
        let pixels = extent_pixels(extent);
        FrameResourceFootprint { ui: pixels, candidate: pixels, trace_scratch }
    }

    pub fn required_bytes(self) -> (bytes: u64)
        ensures
            bytes == footprint_bytes(self),
    {
        saturating_mul_u64(self.ui, UI_BYTES_PER_PIXEL).saturating_add(
            saturating_mul_u64(self.candidate, HDR_BYTES_PER_PIXEL),
        ).saturating_add(self.trace_scratch)
    }
}

/// The core resources alive at the peak of a rebuild: the published scene, the installed
/// frame, and its replacement.
#[derive(Clone, Copy, Debug, PartialEq, Eq, Structural)]
pub struct CoreResourcePlan {
    pub published: u64,
    pub installed: FrameResourceFootprint,
    pub replacement: FrameResourceFootprint,
}

pub open spec fn plan_bytes(plan: CoreResourcePlan) -> int {
    saturating_sum(
        saturating_sum(
            saturating_product(plan.published as int, HDR_BYTES_PER_PIXEL as int),
            footprint_bytes(plan.installed),
        ),
        footprint_bytes(plan.replacement),
    )
}

impl CoreResourcePlan {
    /// The first rebuild: nothing is installed yet.
    pub fn without_installed_frame(
        published: RenderExtent,
        replacement: RenderExtent,
        replacement_trace_scratch: u64,
    ) -> (plan: Self)
        ensures
            plan.published == pixels_of(published@),
            plan.installed == FrameResourceFootprint::empty_spec(),
            plan.replacement == FrameResourceFootprint::tracing_spec(replacement@, replacement_trace_scratch),
    {
        CoreResourcePlan {
            published: extent_pixels(published),
            installed: FrameResourceFootprint::empty(),
            replacement: FrameResourceFootprint::tracing(replacement, replacement_trace_scratch),
        }
    }

    /// A rebuild while `installed` is still alive.
    pub fn rebuild(
        published: RenderExtent,
        installed: FrameResourceFootprint,
        replacement: RenderExtent,
        replacement_trace_scratch: u64,
    ) -> (plan: Self)
        ensures
            plan.published == pixels_of(published@),
            plan.installed == installed,
            plan.replacement == FrameResourceFootprint::tracing_spec(replacement@, replacement_trace_scratch),
    {
        CoreResourcePlan {
            published: extent_pixels(published),
            installed,
            replacement: FrameResourceFootprint::tracing(replacement, replacement_trace_scratch),
        }
    }

    pub fn required_bytes(self) -> (bytes: u64)
        ensures
            bytes == plan_bytes(self),
    {
        saturating_mul_u64(self.published, HDR_BYTES_PER_PIXEL).saturating_add(self.installed.required_bytes())
            .saturating_add(self.replacement.required_bytes())
    }
}

impl FrameResourceFootprint {
    pub open spec fn empty_spec() -> FrameResourceFootprint {
        FrameResourceFootprint { ui: 0, candidate: 0, trace_scratch: 0 }
    }

    pub open spec fn tracing_spec(extent: (u32, u32), trace_scratch: u64) -> FrameResourceFootprint {
        FrameResourceFootprint {
            ui: pixels_of(extent) as u64,
            candidate: pixels_of(extent) as u64,
            trace_scratch,
        }
    }
}

/// The outcome of validating an extent against the device and the project budget.
pub enum ExtentVerdict {
    Accepted,
    ExtentLimit,
    NativePixelBudget,
    FrameResourceBudget,
}

pub open spec fn extent_verdict(extent: (u32, u32), max_texture_dimension_2d: u32, plan: CoreResourcePlan) -> ExtentVerdict {
    if extent.0 > max_texture_dimension_2d || extent.1 > max_texture_dimension_2d {
        ExtentVerdict::ExtentLimit
    } else if pixels_of(extent) > MAXIMUM_NATIVE_TRACE_PIXELS {
        ExtentVerdict::NativePixelBudget
    } else if plan_bytes(plan) > MAXIMUM_CORE_RESOURCE_BYTES {
        ExtentVerdict::FrameResourceBudget
    } else {
        ExtentVerdict::Accepted
    }
}

/// Checks a requested extent: the texture limit first, then the native pixel policy, then the
/// transactional core-resource budget.
pub fn validate_extent(extent: RenderExtent, limits: &DeviceLimits, resource_plan: CoreResourcePlan) -> (result: Result<(), ResizeError>)
    ensures
        match extent_verdict(extent@, limits.max_texture_dimension_2d, resource_plan) {
            ExtentVerdict::Accepted => result is Ok,
            ExtentVerdict::ExtentLimit => result matches Err(ResizeError::ExtentLimit {
                width,
                height,
                max_texture_dimension_2d,
            }) && width == extent@.0 && height == extent@.1 && max_texture_dimension_2d
                == limits.max_texture_dimension_2d,
            ExtentVerdict::NativePixelBudget => result matches Err(ResizeError::NativePixelBudget {
                width,
                height,
                maximum_pixels,
            }) && width == extent@.0 && height == extent@.1 && maximum_pixels == MAXIMUM_NATIVE_TRACE_PIXELS,
            ExtentVerdict::FrameResourceBudget => result matches Err(ResizeError::FrameResourceBudget {
                width,
                height,
                required_bytes,
                maximum_bytes,
            }) && width == extent@.0 && height == extent@.1 && required_bytes == plan_bytes(resource_plan)
                && maximum_bytes == MAXIMUM_CORE_RESOURCE_BYTES,
        },
{
    let width = extent.width();
    let height = extent.height();
    if width > limits.max_texture_dimension_2d || height > limits.max_texture_dimension_2d {
        return Err(ResizeError::ExtentLimit {
            width,
            height,
            max_texture_dimension_2d: limits.max_texture_dimension_2d,
        });
    }
    if extent_pixels(extent) > MAXIMUM_NATIVE_TRACE_PIXELS {
        return Err(ResizeError::NativePixelBudget {
            width,
            height,
            maximum_pixels: MAXIMUM_NATIVE_TRACE_PIXELS,
        });
    }
    let required_bytes = resource_plan.required_bytes();
    if required_bytes > MAXIMUM_CORE_RESOURCE_BYTES {
        return Err(ResizeError::FrameResourceBudget {
            width,
            height,
            required_bytes,
            maximum_bytes: MAXIMUM_CORE_RESOURCE_BYTES,
        });
    }
    Ok(())
}

/// Checks an extent against the texture limit and the storage-buffer limits that the per-pixel
/// diagnostic record planes must respect.
pub fn validate_render_extent(extent: RenderExtent, limits: &DeviceLimits) -> (result: Result<(), ResizeError>)
    ensures
        ({
            let required = saturating_product(
                saturating_product(extent@.0 as int, extent@.1 as int),
                TRACE_RECORD_PLANE_ELEMENT_SIZE as int,
            );
            if extent@.0 > limits.max_texture_dimension_2d || extent@.1 > limits.max_texture_dimension_2d {
                result matches Err(ResizeError::ExtentLimit { width, height, max_texture_dimension_2d })
                    && width == extent@.0 && height == extent@.1 && max_texture_dimension_2d
                    == limits.max_texture_dimension_2d
            } else if required > limits.max_storage_buffer_binding_size || required > limits.max_buffer_size {
                result matches Err(ResizeError::TraceRecordLimit {
                    width,
                    height,
                    required_bytes,
                    max_storage_buffer_binding_size,
                    max_buffer_size,
                }) && width == extent@.0 && height == extent@.1 && required_bytes == required
                    && max_storage_buffer_binding_size == limits.max_storage_buffer_binding_size
                    && max_buffer_size == limits.max_buffer_size
            } else {
                result is Ok
            }
        }),
{
    let width = extent.width();
    let height = extent.height();
    if width > limits.max_texture_dimension_2d || height > limits.max_texture_dimension_2d {
        return Err(ResizeError::ExtentLimit {
            width,
            height,
            max_texture_dimension_2d: limits.max_texture_dimension_2d,
        });
    }
    let required_bytes = trace_record_plane_size(extent);
    if required_bytes > limits.max_storage_buffer_binding_size || required_bytes > limits.max_buffer_size {
        return Err(ResizeError::TraceRecordLimit {
            width,
            height,
            required_bytes,
            max_storage_buffer_binding_size: limits.max_storage_buffer_binding_size,
            max_buffer_size: limits.max_buffer_size,
        });
    }
    Ok(())
}

/// A plan's byte count never falls when the installed frame or its replacement grows: freeing
/// the candidate trace of the installed frame can only admit more extents.
pub proof fn law_budget_is_monotone(plan: CoreResourcePlan, larger_installed: FrameResourceFootprint)
    requires
        larger_installed.ui >= plan.installed.ui,
        larger_installed.candidate >= plan.installed.candidate,
        larger_installed.trace_scratch >= plan.installed.trace_scratch,
    ensures
        plan_bytes(plan) <= plan_bytes(CoreResourcePlan { installed: larger_installed, ..plan }),
{
    let a = plan.installed;
    let b = larger_installed;
    assert(saturating_product(a.ui as int, 4) <= saturating_product(b.ui as int, 4));
    assert(saturating_product(a.candidate as int, 8) <= saturating_product(b.candidate as int, 8));
}

} // verus!
