//! Device events and the errors of a transactional resize.

use vstd::prelude::*;

use crate::capabilities::CapabilityError;

verus! {

/// The category of a device error or event.
#[derive(Clone, Copy, Debug, PartialEq, Eq, Structural)]
pub enum DeviceEventKind {
    Validation,
    Internal,
    OutOfMemory,
    Lost,
}

pub open spec fn kind_is_fatal(kind: DeviceEventKind) -> bool {
    kind == DeviceEventKind::Internal || kind == DeviceEventKind::OutOfMemory || kind == DeviceEventKind::Lost
}

/// An asynchronous device error or loss reported to the application.
#[derive(Debug)]
pub struct DeviceEvent {
    kind: DeviceEventKind,
    message: String,
}

impl DeviceEvent {
    pub closed spec fn spec_kind(&self) -> DeviceEventKind {
        self.kind
    }

    pub closed spec fn spec_message(&self) -> Seq<char> {
        self.message@
    }

    pub fn new(kind: DeviceEventKind, message: String) -> (event: Self)
        ensures
            event.spec_kind() == kind,
            event.spec_message() == message@,
    {
        DeviceEvent { kind, message }
    }

    pub fn kind(&self) -> (kind: DeviceEventKind)
        ensures
            kind == self.spec_kind(),
    {
        self.kind
    }

    pub fn message(&self) -> (message: &str)
        ensures
            message@ == self.spec_message(),
    {
        self.message.as_str()
    }

    /// Internal errors, memory exhaustion and device loss are fatal; validation errors are not.
    pub fn is_fatal(&self) -> (fatal: bool)
        ensures
            fatal == kind_is_fatal(self.spec_kind()),
    {
        match self.kind {
            DeviceEventKind::Internal | DeviceEventKind::OutOfMemory | DeviceEventKind::Lost => true,
            DeviceEventKind::Validation => false,
        }
    }
}

/// A device error as the renderer reads it: its category and description.
#[derive(Debug)]
pub enum GpuError {
    Validation { description: String },
    Internal { description: String },
    OutOfMemory,
}

pub open spec fn gpu_error_kind(error: GpuError) -> DeviceEventKind {
    match error {
        GpuError::Validation { .. } => DeviceEventKind::Validation,
        GpuError::Internal { .. } => DeviceEventKind::Internal,
        GpuError::OutOfMemory => DeviceEventKind::OutOfMemory,
    }
}

pub open spec fn gpu_error_message(error: GpuError) -> Seq<char> {
    match error {
        GpuError::Validation { description } => description@,
        GpuError::Internal { description } => description@,
        GpuError::OutOfMemory => "GPU out of memory"@,
    }
}

pub fn device_error_kind(error: &GpuError) -> (kind: DeviceEventKind)
    ensures
        kind == gpu_error_kind(*error),
{
    match error {
        GpuError::Validation { .. } => DeviceEventKind::Validation,
        GpuError::Internal { .. } => DeviceEventKind::Internal,
        GpuError::OutOfMemory => DeviceEventKind::OutOfMemory,
    }
}

/// The event kind and message of an uncaptured device error.
pub fn device_error_details(error: GpuError) -> (details: (DeviceEventKind, String))
    ensures
        details.0 == gpu_error_kind(error),
        details.1@ == gpu_error_message(error),
{
    let kind = device_error_kind(&error);
    let message = match error {
        GpuError::Validation { description } => description,
        GpuError::Internal { description } => description,
        GpuError::OutOfMemory => String::from_str("GPU out of memory"),
    };
    (kind, message)
}

/// The event an uncaptured device error becomes.
pub fn device_error_event(error: GpuError) -> (event: DeviceEvent)
    ensures
        event.spec_kind() == gpu_error_kind(error),
        event.spec_message() == gpu_error_message(error),
{
    let (kind, message) = device_error_details(error);
    DeviceEvent::new(kind, message)
}

/// The error reported by a set of error scopes: out of memory before internal before
/// validation, none when no scope caught one.
pub fn first_scope_error<E>(validation: Option<E>, out_of_memory: Option<E>, internal: Option<E>) -> (error: Option<E>)
    ensures
        error == if out_of_memory is Some {
            out_of_memory
        } else if internal is Some {
            internal
        } else {
            validation
        },
{
    match out_of_memory {
        Some(error) => Some(error),
        None => match internal {
            Some(error) => Some(error),
            None => validation,
        },
    }
}

/// Why a requested extent could not be installed.
#[derive(Debug)]
pub enum ResizeError {
    ExtentLimit { width: u32, height: u32, max_texture_dimension_2d: u32 },
    TraceRecordLimit {
        width: u32,
        height: u32,
        required_bytes: u64,
        max_storage_buffer_binding_size: u64,
        max_buffer_size: u64,
    },
    NativePixelBudget { width: u32, height: u32, maximum_pixels: u64 },
    FrameResourceBudget { width: u32, height: u32, required_bytes: u64, maximum_bytes: u64 },
    SurfaceCapabilities(CapabilityError),
    GpuResource { stage: &'static str, source: GpuError },
}

pub open spec fn resize_error_kind(error: ResizeError) -> DeviceEventKind {
    match error {
        ResizeError::GpuResource { source, .. } => gpu_error_kind(source),
        _ => DeviceEventKind::Validation,
    }
}

impl ResizeError {
    /// Limits, budgets and capabilities are validation failures; a GPU resource failure has the
    /// category of its device error.
    pub fn kind(&self) -> (kind: DeviceEventKind)
        ensures
            kind == resize_error_kind(*self),
    {
        match self {
            ResizeError::GpuResource { source, .. } => device_error_kind(source),
            _ => DeviceEventKind::Validation,
        }
    }

    /// Surface-capability and GPU-resource failures end the renderer, as do fatal categories.
    pub fn is_fatal(&self) -> (fatal: bool)
        ensures
            fatal == ((*self is SurfaceCapabilities || *self is GpuResource) || kind_is_fatal(
                resize_error_kind(*self),
            )),
    {
        let structural = match self {
            ResizeError::SurfaceCapabilities(_) | ResizeError::GpuResource { .. } => true,
            _ => false,
        };
        structural || match self.kind() {
            DeviceEventKind::Internal | DeviceEventKind::OutOfMemory | DeviceEventKind::Lost => true,
            DeviceEventKind::Validation => false,
        }
    }
}

/// Resize validation failures that only limits and budgets cause are never fatal.
pub proof fn law_budget_errors_are_recoverable(error: ResizeError)
    requires
        error is ExtentLimit || error is TraceRecordLimit || error is NativePixelBudget
            || error is FrameResourceBudget,
    ensures
        resize_error_kind(error) == DeviceEventKind::Validation,
        !kind_is_fatal(resize_error_kind(error)),
{
}

} // verus!
