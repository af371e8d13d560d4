//! Adapter admission and presentation-surface selection.

use vstd::prelude::*;

verus! {

/// The kind of device behind an adapter.
#[derive(Clone, Copy, Debug, PartialEq, Eq, Structural)]
pub enum DeviceType {
    Other,
    IntegratedGpu,
    DiscreteGpu,
    VirtualGpu,
    Cpu,
}

/// A feature set as its two bit words: native extension features and WebGPU features.
#[derive(Clone, Copy, Debug, PartialEq, Eq, Structural)]
pub struct FeatureSet {
    pub native: u64,
    pub webgpu: u64,
}

/// The texture usage bit of sampled bindings.
pub open spec fn texture_binding_usage() -> u32 {
    4
}

/// The texture usage bit of storage bindings.
pub open spec fn storage_binding_usage() -> u32 {
    8
}

/// The texture usage bit of render attachments.
pub open spec fn render_attachment_usage() -> u32 {
    16
}

/// The usages the `Rgba16Float` scene format needs: storage, sampling, and render attachment.
pub open spec fn required_hdr_usages() -> u32 {
    storage_binding_usage() | texture_binding_usage() | render_attachment_usage()
}

/// `wgpu::Features::TIMESTAMP_QUERY` as its two bit words. wgpu-types defines the flag as the
/// WebGPU feature bit `1 << 7`, and `Features::bits` gives the native word first, then the
/// WebGPU word.
#[verifier::external_body]
fn timestamp_query_features() -> (features: FeatureSet)
    ensures
        features == baseline_features(),
{
    let [native, webgpu] = wgpu::Features::TIMESTAMP_QUERY.bits().0;
    FeatureSet { native, webgpu }
}

/// `wgpu::TextureUsages::TEXTURE_BINDING.bits()`, which wgpu-types defines as `1 << 2`.
#[verifier::external_body]
fn texture_binding_usage_bit() -> (bit: u32)
    ensures
        bit == texture_binding_usage(),
{
    wgpu::TextureUsages::TEXTURE_BINDING.bits()
}

/// `wgpu::TextureUsages::STORAGE_BINDING.bits()`, which wgpu-types defines as `1 << 3`.
#[verifier::external_body]
fn storage_binding_usage_bit() -> (bit: u32)
    ensures
        bit == storage_binding_usage(),
{
    wgpu::TextureUsages::STORAGE_BINDING.bits()
}

/// `wgpu::TextureUsages::RENDER_ATTACHMENT.bits()`, which wgpu-types defines as `1 << 4`.
#[verifier::external_body]
fn render_attachment_usage_bit() -> (bit: u32)
    ensures
        bit == render_attachment_usage(),
{
    wgpu::TextureUsages::RENDER_ATTACHMENT.bits()
}

/// The usage bits the HDR scene format must allow.
pub fn hdr_scene_usages() -> (usages: u32)
    ensures
        usages == required_hdr_usages(),
        usages == 28,
{
    let usages = storage_binding_usage_bit() | texture_binding_usage_bit() | render_attachment_usage_bit();
    assert((8u32 | 4u32 | 16u32) == 28u32) by (bit_vector);
    usages
}

impl FeatureSet {
    /// The features every supported adapter must expose: timestamp queries.
    pub fn baseline() -> (features: Self)
        ensures
            features == baseline_features(),
    {
        timestamp_query_features()
    }

    /// The features of `self` that `other` lacks.
    pub fn difference(self, other: FeatureSet) -> (missing: FeatureSet)
        ensures
            missing == feature_difference(self, other),
    {
        FeatureSet { native: self.native & !other.native, webgpu: self.webgpu & !other.webgpu }
    }

    pub fn is_empty(self) -> (empty: bool)
        ensures
            empty <==> (self.native == 0 && self.webgpu == 0),
    {
        self.native == 0 && self.webgpu == 0
    }
}

pub open spec fn baseline_features() -> FeatureSet {
    FeatureSet { native: 0, webgpu: 0x80 }
}

pub open spec fn feature_difference(a: FeatureSet, b: FeatureSet) -> FeatureSet {
    FeatureSet { native: a.native & !b.native, webgpu: a.webgpu & !b.webgpu }
}

/// Why an adapter or surface is outside the renderer's baseline.
#[derive(Clone, Copy, Debug, PartialEq, Eq, Structural)]
pub enum CapabilityError {
    SoftwareAdapter,
    DownlevelAdapter,
    MissingFeatures(FeatureSet),
    MissingHdrTextureUsages(u32),
    NoSdrSurfacePair,
    NoPresentMode,
    NoAlphaMode,
    MissingRenderAttachment,
}

pub open spec fn baseline_adapter_spec(
    device_type: DeviceType,
    is_webgpu_compliant: bool,
    available_features: FeatureSet,
    hdr_allowed_usages: u32,
) -> Result<(), CapabilityError> {
    let missing_features = feature_difference(baseline_features(), available_features);
    let missing_usages = required_hdr_usages() & !hdr_allowed_usages;
    if device_type == DeviceType::Cpu {
        Err(CapabilityError::SoftwareAdapter)
    } else if !is_webgpu_compliant {
        Err(CapabilityError::DownlevelAdapter)
    } else if !(missing_features.native == 0 && missing_features.webgpu == 0) {
        Err(CapabilityError::MissingFeatures(missing_features))
    } else if missing_usages != 0 {
        Err(CapabilityError::MissingHdrTextureUsages(missing_usages))
    } else {
        Ok(())
    }
}

/// Admits hardware, WebGPU-compliant adapters with timestamp queries whose HDR scene format
/// can be stored, sampled and rendered to; the first unmet condition is the error.
pub fn check_baseline_adapter(
    device_type: DeviceType,
    is_webgpu_compliant: bool,
    available_features: FeatureSet,
    hdr_allowed_usages: u32,
) -> (result: Result<(), CapabilityError>)
    ensures
        result == baseline_adapter_spec(device_type, is_webgpu_compliant, available_features, hdr_allowed_usages),
{
    if device_type == DeviceType::Cpu {
        return Err(CapabilityError::SoftwareAdapter);
    }
    if !is_webgpu_compliant {
        return Err(CapabilityError::DownlevelAdapter);
    }
    let missing_features = FeatureSet::baseline().difference(available_features);
    if !missing_features.is_empty() {
        return Err(CapabilityError::MissingFeatures(missing_features));
    }
    let missing_usages = hdr_scene_usages() & !hdr_allowed_usages;
    if missing_usages != 0 {
        return Err(CapabilityError::MissingHdrTextureUsages(missing_usages));
    }
    Ok(())
}

/// The surface texture formats the selection distinguishes; every other format is carried with
/// an identifier and whether it is an sRGB format.
#[derive(Clone, Copy, Debug, PartialEq, Eq, Structural)]
pub enum TextureFormat {
    Rgba16Float,
    Bgra8Unorm,
    Bgra8UnormSrgb,
    Rgba8Unorm,
    Rgba8UnormSrgb,
    Rgb10a2Unorm,
    Other { id: u32, srgb: bool },
}

pub open spec fn format_is_srgb(format: TextureFormat) -> bool {
    match format {
        TextureFormat::Bgra8UnormSrgb | TextureFormat::Rgba8UnormSrgb => true,
        TextureFormat::Other { srgb, .. } => srgb,
        _ => false,
    }
}

impl TextureFormat {
    pub fn is_srgb(self) -> (srgb: bool)
        ensures
            srgb == format_is_srgb(self),
    {
        match self {
            TextureFormat::Bgra8UnormSrgb | TextureFormat::Rgba8UnormSrgb => true,
            TextureFormat::Other { srgb, .. } => srgb,
            _ => false,
        }
    }
}

/// One surface format and the color spaces it can be presented in.
#[derive(Clone, Copy, Debug, PartialEq, Eq, Structural)]
pub struct SurfaceFormatCapability {
    pub format: TextureFormat,
    pub supports_srgb: bool,
    pub supports_extended_srgb_linear: bool,
}

#[derive(Clone, Copy, Debug, PartialEq, Eq, Structural)]
pub enum PresentMode {
    AutoVsync,
    AutoNoVsync,
    Fifo,
    FifoRelaxed,
    Immediate,
    Mailbox,
}

#[derive(Clone, Copy, Debug, PartialEq, Eq, Structural)]
pub enum CompositeAlphaMode {
    Auto,
    Opaque,
    PreMultiplied,
    PostMultiplied,
    Inherit,
}

/// What a presentation surface offers.
pub struct SurfaceCapabilities {
    pub format_capabilities: Vec<SurfaceFormatCapability>,
    pub present_modes: Vec<PresentMode>,
    pub alpha_modes: Vec<CompositeAlphaMode>,
    pub usages: u32,
}

#[derive(Clone, Copy, Debug, PartialEq, Eq, Structural)]
pub enum SurfaceColorSpace {
    Srgb,
    ExtendedSrgbLinear,
}

#[derive(Clone, Copy, Debug, PartialEq, Eq, Structural)]
pub enum UnknownDisplayState {
    PlatformIntegrationUnavailable,
    UnsupportedOsVersion,
    StateQueryFailed,
    WaylandColorManagementUnavailable,
    WaylandProtocolTooOld,
    WaylandEncodingUnavailable,
}

/// The display's reported dynamic range. HDR parameters are IEEE-754 binary32 bit patterns.
#[derive(Clone, Copy, Debug, PartialEq, Eq, Structural)]
pub enum DynamicRange {
    Suppressed,
    Sdr,
    Hdr { tone_map_headroom_bits: u32, reference_white_scale_bits: u32 },
    Unknown(UnknownDisplayState),
}

#[derive(Clone, Copy, Debug, PartialEq, Eq, Structural)]
pub enum SdrReason {
    SystemSuppressed,
    HdrSurfacePairMissing,
    DisplayReportedSdr,
    PlatformIntegrationUnavailable,
    UnsupportedOsVersion,
    DisplayStateQueryFailed,
    WaylandColorManagementUnavailable,
    WaylandProtocolTooOld,
    WaylandEncodingUnavailable,
}

#[derive(Clone, Copy, Debug, PartialEq, Eq, Structural)]
pub enum OutputMode {
    Hdr,
    Sdr(SdrReason),
}

/// The bit pattern of binary32 `1.0`.
pub const F32_ONE_BITS: u32 = 0x3f80_0000;

/// The bit pattern of binary32 positive infinity; every finite positive value lies below it.
pub const F32_INFINITY_BITS: u32 = 0x7f80_0000;

/// HDR parameters are usable when the headroom is finite and at least one and the reference
/// white scale is finite and positive. Positive binary32 values order like their bit patterns,
/// and a set sign bit or an exponent of all ones is never admitted.
pub open spec fn hdr_parameters_valid(tone_map_headroom_bits: u32, reference_white_scale_bits: u32) -> bool {
    &&& 0x3f80_0000 <= tone_map_headroom_bits < 0x7f80_0000
    &&& 0 < reference_white_scale_bits < 0x7f80_0000
}

pub fn valid_hdr_parameters(tone_map_headroom_bits: u32, reference_white_scale_bits: u32) -> (valid: bool)
    ensures
        valid == hdr_parameters_valid(tone_map_headroom_bits, reference_white_scale_bits),
{
    F32_ONE_BITS <= tone_map_headroom_bits && tone_map_headroom_bits < F32_INFINITY_BITS
        && 0 < reference_white_scale_bits && reference_white_scale_bits < F32_INFINITY_BITS
}

/// The output transport and its tone-mapping parameters (binary32 bit patterns).
#[derive(Clone, Copy, Debug, PartialEq, Eq, Structural)]
pub struct OutputContract {
    pub mode: OutputMode,
    pub tone_map_headroom_bits: u32,
    pub reference_white_scale_bits: u32,
}

/// The presentation configuration chosen for a surface.
#[derive(Clone, Copy, Debug, PartialEq, Eq, Structural)]
pub struct SurfaceSelection {
    pub format: TextureFormat,
    pub color_space: SurfaceColorSpace,
    pub present_mode: PresentMode,
    pub alpha_mode: CompositeAlphaMode,
    pub output: OutputContract,
}

pub open spec fn fragment_entry_spec(selection: SurfaceSelection) -> Seq<char> {
    match selection.output.mode {
        OutputMode::Hdr => "present_hdr_extended_linear"@,
        OutputMode::Sdr(_) => if format_is_srgb(selection.format) {
            "present_sdr_to_linear_target"@
        } else {
            "present_sdr_to_gamma_target"@
        },
    }
}

impl SurfaceSelection {
    pub fn output_mode(self) -> (mode: OutputMode)
        ensures
            mode == self.output.mode,
    {
        self.output.mode
    }

    /// The presentation fragment shader entry point for this output.
    pub fn fragment_entry(self) -> (entry: &'static str)
        ensures
            entry@ == fragment_entry_spec(self),
    {
        match self.output.mode {
            OutputMode::Hdr => "present_hdr_extended_linear",
            OutputMode::Sdr(_) => if self.format.is_srgb() {
                "present_sdr_to_linear_target"
            } else {
                "present_sdr_to_gamma_target"
            },
        }
    }
}

/// Fifo when offered, otherwise the first offered mode.
pub open spec fn chosen_present_mode(modes: Seq<PresentMode>) -> Option<PresentMode> {
    if modes.contains(PresentMode::Fifo) {
        Some(PresentMode::Fifo)
    } else if modes.len() > 0 {
        Some(modes[0])
    } else {
        None
    }
}

/// Opaque when offered, otherwise the first offered mode.
pub open spec fn chosen_alpha_mode(modes: Seq<CompositeAlphaMode>) -> Option<CompositeAlphaMode> {
    if modes.contains(CompositeAlphaMode::Opaque) {
        Some(CompositeAlphaMode::Opaque)
    } else if modes.len() > 0 {
        Some(modes[0])
    } else {
        None
    }
}

/// Whether the surface offers `Rgba16Float` in extended linear sRGB.
pub open spec fn has_hdr_pair(formats: Seq<SurfaceFormatCapability>) -> bool {
    exists|i: int|
        0 <= i < formats.len() && (#[trigger] formats[i]).format == TextureFormat::Rgba16Float
            && formats[i].supports_extended_srgb_linear
}

/// An sRGB-capable entry whose format is an sRGB format (`srgb_format`), or a plain eight-bit
/// unorm format (otherwise).
pub open spec fn sdr_candidate(capability: SurfaceFormatCapability, srgb_format: bool) -> bool {
    capability.supports_srgb && if srgb_format {
        format_is_srgb(capability.format)
    } else {
        capability.format == TextureFormat::Bgra8Unorm || capability.format == TextureFormat::Rgba8Unorm
    }
}

/// The format of the first entry that is an SDR candidate of the given kind.
pub open spec fn first_sdr_format(formats: Seq<SurfaceFormatCapability>, srgb_format: bool) -> Option<TextureFormat>
    decreases formats.len(),
{
    if formats.len() == 0 {
        None
    } else if sdr_candidate(formats[0], srgb_format) {
        Some(formats[0].format)
    } else {
        first_sdr_format(formats.drop_first(), srgb_format)
    }
}

/// The SDR format: the first sRGB format with an sRGB color space, else the first eight-bit
/// unorm format with an sRGB color space.
pub open spec fn chosen_sdr_format(formats: Seq<SurfaceFormatCapability>) -> Option<TextureFormat> {
    match first_sdr_format(formats, true) {
        Some(format) => Some(format),
        None => first_sdr_format(formats, false),
    }
}

/// Why the output falls back to SDR for a display state.
pub open spec fn sdr_reason_spec(display: DynamicRange) -> SdrReason {
    match display {
        DynamicRange::Suppressed => SdrReason::SystemSuppressed,
        DynamicRange::Sdr => SdrReason::DisplayReportedSdr,
        DynamicRange::Hdr { tone_map_headroom_bits, reference_white_scale_bits } => {
            if !hdr_parameters_valid(tone_map_headroom_bits, reference_white_scale_bits) {
                SdrReason::DisplayStateQueryFailed
            } else {
                SdrReason::HdrSurfacePairMissing
            }
        },
        DynamicRange::Unknown(reason) => match reason {
            UnknownDisplayState::PlatformIntegrationUnavailable => SdrReason::PlatformIntegrationUnavailable,
            UnknownDisplayState::UnsupportedOsVersion => SdrReason::UnsupportedOsVersion,
            UnknownDisplayState::StateQueryFailed => SdrReason::DisplayStateQueryFailed,
            UnknownDisplayState::WaylandColorManagementUnavailable => SdrReason::WaylandColorManagementUnavailable,
            UnknownDisplayState::WaylandProtocolTooOld => SdrReason::WaylandProtocolTooOld,
            UnknownDisplayState::WaylandEncodingUnavailable => SdrReason::WaylandEncodingUnavailable,
        },
    }
}

/// The selection for a surface and display state.
///
/// The surface must be renderable and offer a present mode and an alpha mode. A valid HDR
/// display with an `Rgba16Float` extended-linear pair presents HDR with the display's
/// parameters; otherwise the output is SDR in sRGB, with unit parameters and the reason.
pub open spec fn select_surface_spec(
    formats: Seq<SurfaceFormatCapability>,
    present_modes: Seq<PresentMode>,
    alpha_modes: Seq<CompositeAlphaMode>,
    usages: u32,
    display: DynamicRange,
) -> Result<SurfaceSelection, CapabilityError> {
    if usages & render_attachment_usage() == 0 {
        Err(CapabilityError::MissingRenderAttachment)
    } else if chosen_present_mode(present_modes) is None {
        Err(CapabilityError::NoPresentMode)
    } else if chosen_alpha_mode(alpha_modes) is None {
        Err(CapabilityError::NoAlphaMode)
    } else {
        let present_mode = chosen_present_mode(present_modes)->Some_0;
        let alpha_mode = chosen_alpha_mode(alpha_modes)->Some_0;
        match display {
            DynamicRange::Hdr { tone_map_headroom_bits, reference_white_scale_bits }
                if hdr_parameters_valid(tone_map_headroom_bits, reference_white_scale_bits)
                    && has_hdr_pair(formats) => Ok(SurfaceSelection {
                format: TextureFormat::Rgba16Float,
                color_space: SurfaceColorSpace::ExtendedSrgbLinear,
                present_mode,
                alpha_mode,
                output: OutputContract {
                    mode: OutputMode::Hdr,
                    tone_map_headroom_bits,
                    reference_white_scale_bits,
                },
            }),
            _ => match chosen_sdr_format(formats) {
                None => Err(CapabilityError::NoSdrSurfacePair),
                Some(format) => Ok(SurfaceSelection {
                    format,
                    color_space: SurfaceColorSpace::Srgb,
                    present_mode,
                    alpha_mode,
                    output: OutputContract {
                        mode: OutputMode::Sdr(sdr_reason_spec(display)),
                        tone_map_headroom_bits: F32_ONE_BITS,
                        reference_white_scale_bits: F32_ONE_BITS,
                    },
                }),
            },
        }
    }
}

fn choose_present_mode(modes: &Vec<PresentMode>) -> (mode: Option<PresentMode>)
    ensures
        mode == chosen_present_mode(modes@),
{
    let mut i: usize = 0;
    while i < modes.len()
        invariant
            i <= modes.len(),
            forall|j: int| 0 <= j < i ==> modes@[j] != PresentMode::Fifo,
        decreases modes.len() - i,
    {
        if modes[i] == PresentMode::Fifo {
            assert(modes@.contains(PresentMode::Fifo)) by {
                assert(modes@[i as int] == PresentMode::Fifo);
            }
            return Some(PresentMode::Fifo);
        }
        i = i + 1;
    }
    if modes.len() > 0 {
        Some(modes[0])
    } else {
        None
    }
}

fn choose_alpha_mode(modes: &Vec<CompositeAlphaMode>) -> (mode: Option<CompositeAlphaMode>)
    ensures
        mode == chosen_alpha_mode(modes@),
{
    let mut i: usize = 0;
    while i < modes.len()
        invariant
            i <= modes.len(),
            forall|j: int| 0 <= j < i ==> modes@[j] != CompositeAlphaMode::Opaque,
        decreases modes.len() - i,
    {
        if modes[i] == CompositeAlphaMode::Opaque {
            assert(modes@.contains(CompositeAlphaMode::Opaque)) by {
                assert(modes@[i as int] == CompositeAlphaMode::Opaque);
            }
            return Some(CompositeAlphaMode::Opaque);
        }
        i = i + 1;
    }
    if modes.len() > 0 {
        Some(modes[0])
    } else {
        None
    }
}

fn find_hdr_pair(formats: &Vec<SurfaceFormatCapability>) -> (found: bool)
    ensures
        found == has_hdr_pair(formats@),
{
    let mut i: usize = 0;
    while i < formats.len()
        invariant
            i <= formats.len(),
            forall|j: int|
                0 <= j < i ==> !((#[trigger] formats@[j]).format == TextureFormat::Rgba16Float
                    && formats@[j].supports_extended_srgb_linear),
        decreases formats.len() - i,
    {
        let candidate = formats[i];
        if candidate.format == TextureFormat::Rgba16Float && candidate.supports_extended_srgb_linear {
            assert(formats@[i as int] == candidate);
            return true;
        }
        i = i + 1;
    }
    false
}

proof fn lemma_first_sdr_format_skip(formats: Seq<SurfaceFormatCapability>, srgb_format: bool, i: int)
    requires
        0 <= i < formats.len(),
        !sdr_candidate(formats[i], srgb_format),
    ensures
        first_sdr_format(formats.subrange(i, formats.len() as int), srgb_format) == first_sdr_format(
            formats.subrange(i + 1, formats.len() as int),
            srgb_format,
        ),
{
    let rest = formats.subrange(i, formats.len() as int);
    assert(rest.drop_first() =~= formats.subrange(i + 1, formats.len() as int));
}

fn find_sdr_format(formats: &Vec<SurfaceFormatCapability>, srgb_format: bool) -> (format: Option<TextureFormat>)
    ensures
        format == first_sdr_format(formats@, srgb_format),
{
    let mut i: usize = 0;
    assert(formats@.subrange(0, formats@.len() as int) =~= formats@);
    while i < formats.len()
        invariant
            i <= formats.len(),
            first_sdr_format(formats@, srgb_format) == first_sdr_format(
                formats@.subrange(i as int, formats@.len() as int),
                srgb_format,
            ),
        decreases formats.len() - i,
    {
        let candidate = formats[i];
        let matches = candidate.supports_srgb && if srgb_format {
            candidate.format.is_srgb()
        } else {
            candidate.format == TextureFormat::Bgra8Unorm || candidate.format == TextureFormat::Rgba8Unorm
        };
        if matches {
            assert(formats@.subrange(i as int, formats@.len() as int)[0] == candidate);
            return Some(candidate.format);
        }
        proof {
            lemma_first_sdr_format_skip(formats@, srgb_format, i as int);
        }
        i = i + 1;
    }
    None
}

pub fn sdr_reason(display: DynamicRange) -> (reason: SdrReason)
    ensures
        reason == sdr_reason_spec(display),
{
    match display {
        DynamicRange::Suppressed => SdrReason::SystemSuppressed,
        DynamicRange::Sdr => SdrReason::DisplayReportedSdr,
        DynamicRange::Hdr { tone_map_headroom_bits, reference_white_scale_bits } => {
            if !valid_hdr_parameters(tone_map_headroom_bits, reference_white_scale_bits) {
                SdrReason::DisplayStateQueryFailed
            } else {
                SdrReason::HdrSurfacePairMissing
            }
        },
        DynamicRange::Unknown(reason) => match reason {
            UnknownDisplayState::PlatformIntegrationUnavailable => SdrReason::PlatformIntegrationUnavailable,
            UnknownDisplayState::UnsupportedOsVersion => SdrReason::UnsupportedOsVersion,
            UnknownDisplayState::StateQueryFailed => SdrReason::DisplayStateQueryFailed,
            UnknownDisplayState::WaylandColorManagementUnavailable => SdrReason::WaylandColorManagementUnavailable,
            UnknownDisplayState::WaylandProtocolTooOld => SdrReason::WaylandProtocolTooOld,
            UnknownDisplayState::WaylandEncodingUnavailable => SdrReason::WaylandEncodingUnavailable,
        },
    }
}

/// Selects the surface format, color space, present and alpha modes, and output transport.
pub fn select_surface(capabilities: &SurfaceCapabilities, display: DynamicRange) -> (result: Result<SurfaceSelection, CapabilityError>)
    ensures
        result == select_surface_spec(
            capabilities.format_capabilities@,
            capabilities.present_modes@,
            capabilities.alpha_modes@,
            capabilities.usages,
            display,
        ),
{
    if capabilities.usages & render_attachment_usage_bit() == 0 {
        return Err(CapabilityError::MissingRenderAttachment);
    }
    let present_mode = match choose_present_mode(&capabilities.present_modes) {
        Some(mode) => mode,
        None => return Err(CapabilityError::NoPresentMode),
    };
    let alpha_mode = match choose_alpha_mode(&capabilities.alpha_modes) {
        Some(mode) => mode,
        None => return Err(CapabilityError::NoAlphaMode),
    };
    if let DynamicRange::Hdr { tone_map_headroom_bits, reference_white_scale_bits } = display {
        if valid_hdr_parameters(tone_map_headroom_bits, reference_white_scale_bits)
            && find_hdr_pair(&capabilities.format_capabilities) {
            return Ok(SurfaceSelection {
                format: TextureFormat::Rgba16Float,
                color_space: SurfaceColorSpace::ExtendedSrgbLinear,
                present_mode,
                alpha_mode,
                output: OutputContract {
                    mode: OutputMode::Hdr,
                    tone_map_headroom_bits,
                    reference_white_scale_bits,
                },
            });
        }
    }
    let reason = sdr_reason(display);
    let format = match find_sdr_format(&capabilities.format_capabilities, true) {
        Some(format) => format,
        None => match find_sdr_format(&capabilities.format_capabilities, false) {
            Some(format) => format,
            None => return Err(CapabilityError::NoSdrSurfacePair),
        },
    };
    Ok(SurfaceSelection {
        format,
        color_space: SurfaceColorSpace::Srgb,
        present_mode,
        alpha_mode,
        output: OutputContract {
            mode: OutputMode::Sdr(reason),
            tone_map_headroom_bits: F32_ONE_BITS,
            reference_white_scale_bits: F32_ONE_BITS,
        },
    })
}

/// Whether switching between two selections requires reconfiguring the surface.
pub fn surface_configuration_changed(current: SurfaceSelection, next: SurfaceSelection) -> (changed: bool)
    ensures
        changed <==> (current.format != next.format || current.color_space != next.color_space
            || current.present_mode != next.present_mode || current.alpha_mode != next.alpha_mode),
{
    current.format != next.format || current.color_space != next.color_space
        || current.present_mode != next.present_mode || current.alpha_mode != next.alpha_mode
}

/// Whether switching between two selections requires a new presentation pipeline.
pub fn presentation_pipeline_changed(current: SurfaceSelection, next: SurfaceSelection) -> (changed: bool)
    ensures
        changed <==> (current.format != next.format || fragment_entry_spec(current) != fragment_entry_spec(next)),
{
    let current_entry = current.fragment_entry();
    let next_entry = next.fragment_entry();
    current.format != next.format || !str_equal(current_entry, next_entry)
}

fn str_equal(a: &str, b: &str) -> (equal: bool)
    ensures
        equal <==> a@ == b@,
{
    let a_len = a.unicode_len();
    let b_len = b.unicode_len();
    if a_len != b_len {
        return false;
    }
    let mut i: usize = 0;
    while i < a_len
        invariant
            i <= a_len,
            a_len == a@.len(),
            b_len == b@.len(),
            a_len == b_len,
            forall|j: int| 0 <= j < i ==> a@[j] == b@[j],
        decreases a_len - i,
    {
        if a.get_char(i) != b.get_char(i) {
            return false;
        }
        i = i + 1;
    }
    assert(a@ =~= b@);
    true
}

proof fn lemma_first_sdr_format_is_offered(formats: Seq<SurfaceFormatCapability>, srgb_format: bool)
    ensures
        first_sdr_format(formats, srgb_format) matches Some(format) ==> exists|i: int|
            0 <= i < formats.len() && (#[trigger] formats[i]).format == format && sdr_candidate(formats[i], srgb_format),
    decreases formats.len(),
{
    if formats.len() > 0 && !sdr_candidate(formats[0], srgb_format) {
        lemma_first_sdr_format_is_offered(formats.drop_first(), srgb_format);
        if let Some(format) = first_sdr_format(formats, srgb_format) {
            let i = choose|i: int|
                0 <= i < formats.drop_first().len() && (#[trigger] formats.drop_first()[i]).format == format
                    && sdr_candidate(formats.drop_first()[i], srgb_format);
            assert(formats[i + 1] == formats.drop_first()[i]);
        }
    } else if formats.len() > 0 {
        assert(formats[0].format == formats[0].format);
    }
}

/// A selection only uses what the surface offers: its present and alpha modes are offered, an
/// HDR selection is the offered `Rgba16Float` extended-linear pair and is made exactly for a
/// valid HDR display, and an SDR selection is an offered sRGB-capable format presented in sRGB
/// that keeps the display's fallback reason.
pub proof fn law_selection_is_offered_by_the_surface(
    formats: Seq<SurfaceFormatCapability>,
    present_modes: Seq<PresentMode>,
    alpha_modes: Seq<CompositeAlphaMode>,
    usages: u32,
    display: DynamicRange,
)
    ensures
        select_surface_spec(formats, present_modes, alpha_modes, usages, display) matches Ok(selection) ==> {
            &&& present_modes.contains(selection.present_mode)
            &&& alpha_modes.contains(selection.alpha_mode)
            &&& (selection.output.mode is Hdr <==> (display matches DynamicRange::Hdr {
                tone_map_headroom_bits,
                reference_white_scale_bits,
            } && hdr_parameters_valid(tone_map_headroom_bits, reference_white_scale_bits) && has_hdr_pair(formats)))
            &&& selection.output.mode is Hdr ==> {
                &&& selection.format == TextureFormat::Rgba16Float
                &&& selection.color_space == SurfaceColorSpace::ExtendedSrgbLinear
            }
            &&& selection.output.mode is Sdr ==> {
                &&& selection.color_space == SurfaceColorSpace::Srgb
                &&& selection.output.mode == OutputMode::Sdr(sdr_reason_spec(display))
                &&& exists|i: int|
                    0 <= i < formats.len() && (#[trigger] formats[i]).format == selection.format
                        && formats[i].supports_srgb
            }
        },
{
    if present_modes.len() > 0 {
        assert(present_modes[0] == present_modes[0]);
    }
    if alpha_modes.len() > 0 {
        assert(alpha_modes[0] == alpha_modes[0]);
    }
    lemma_first_sdr_format_is_offered(formats, true);
    lemma_first_sdr_format_is_offered(formats, false);
}

/// The modes of a selection: Fifo whenever the surface offers it and otherwise the first
/// offered present mode, and opaque composition whenever offered and otherwise the first offered
/// alpha mode. A renderable surface with no present mode, or with present modes but no alpha
/// mode, is refused for that reason.
pub proof fn law_selection_prefers_fifo_and_opaque(
    formats: Seq<SurfaceFormatCapability>,
    present_modes: Seq<PresentMode>,
    alpha_modes: Seq<CompositeAlphaMode>,
    usages: u32,
    display: DynamicRange,
)
    ensures
        select_surface_spec(formats, present_modes, alpha_modes, usages, display) matches Ok(selection) ==> {
            &&& present_modes.contains(PresentMode::Fifo) ==> selection.present_mode == PresentMode::Fifo
            &&& !present_modes.contains(PresentMode::Fifo) ==> selection.present_mode == present_modes[0]
            &&& alpha_modes.contains(CompositeAlphaMode::Opaque) ==> selection.alpha_mode
                == CompositeAlphaMode::Opaque
            &&& !alpha_modes.contains(CompositeAlphaMode::Opaque) ==> selection.alpha_mode == alpha_modes[0]
        },
        usages & 16 != 0 && present_modes.len() == 0 ==> select_surface_spec(
            formats,
            present_modes,
            alpha_modes,
            usages,
            display,
        ) == Err::<SurfaceSelection, CapabilityError>(CapabilityError::NoPresentMode),
        usages & 16 != 0 && present_modes.len() > 0 && alpha_modes.len() == 0 ==> select_surface_spec(
            formats,
            present_modes,
            alpha_modes,
            usages,
            display,
        ) == Err::<SurfaceSelection, CapabilityError>(CapabilityError::NoAlphaMode),
{
    if present_modes.len() == 0 {
        assert(!present_modes.contains(PresentMode::Fifo));
    }
    if alpha_modes.len() == 0 {
        assert(!alpha_modes.contains(CompositeAlphaMode::Opaque));
    }
}

/// The first SDR candidate of a kind is the earliest entry of that kind, and there is none
/// exactly when no entry is of that kind.
proof fn lemma_first_sdr_format_is_first(formats: Seq<SurfaceFormatCapability>, srgb_format: bool)
    ensures
        first_sdr_format(formats, srgb_format) is None <==> forall|i: int|
            0 <= i < formats.len() ==> !sdr_candidate(#[trigger] formats[i], srgb_format),
        first_sdr_format(formats, srgb_format) matches Some(format) ==> exists|i: int|
            0 <= i < formats.len() && (#[trigger] formats[i]).format == format && sdr_candidate(formats[i], srgb_format)
                && forall|j: int| 0 <= j < i ==> !sdr_candidate(#[trigger] formats[j], srgb_format),
    decreases formats.len(),
{
    if formats.len() > 0 {
        let rest = formats.drop_first();
        lemma_first_sdr_format_is_first(rest, srgb_format);
        if sdr_candidate(formats[0], srgb_format) {
            assert(formats[0].format == formats[0].format);
        } else {
            assert forall|i: int| 0 <= i < rest.len() implies rest[i] == formats[i + 1] by {}
            if first_sdr_format(rest, srgb_format) is None {
                assert forall|i: int| 0 <= i < formats.len() implies !sdr_candidate(#[trigger] formats[i], srgb_format) by {
                    if i > 0 {
                        assert(formats[i] == rest[i - 1]);
                    }
                }
            } else {
                let format = first_sdr_format(rest, srgb_format)->Some_0;
                let i = choose|i: int|
                    0 <= i < rest.len() && (#[trigger] rest[i]).format == format && sdr_candidate(rest[i], srgb_format)
                        && forall|j: int| 0 <= j < i ==> !sdr_candidate(#[trigger] rest[j], srgb_format);
                assert(formats[i + 1] == rest[i]);
                assert forall|j: int| 0 <= j < i + 1 implies !sdr_candidate(#[trigger] formats[j], srgb_format) by {
                    if j > 0 {
                        assert(formats[j] == rest[j - 1]);
                    }
                }
                assert(sdr_candidate(rest[i], srgb_format));
            }
        }
    }
}

/// An SDR selection takes the first entry that pairs an sRGB format with an sRGB color space;
/// only when the surface offers no such entry does it take the first eight-bit unorm format
/// with an sRGB color space, whose output the presentation shader encodes.
pub proof fn law_sdr_selection_prefers_the_first_srgb_format(
    formats: Seq<SurfaceFormatCapability>,
    present_modes: Seq<PresentMode>,
    alpha_modes: Seq<CompositeAlphaMode>,
    usages: u32,
    display: DynamicRange,
)
    ensures
        select_surface_spec(formats, present_modes, alpha_modes, usages, display) matches Ok(selection)
            ==> selection.output.mode is Sdr ==> {
            &&& (exists|i: int|
                0 <= i < formats.len() && (#[trigger] formats[i]).supports_srgb && format_is_srgb(formats[i].format))
                ==> {
                &&& format_is_srgb(selection.format)
                &&& exists|i: int|
                    0 <= i < formats.len() && (#[trigger] formats[i]).format == selection.format
                        && formats[i].supports_srgb && forall|j: int|
                        0 <= j < i ==> !((#[trigger] formats[j]).supports_srgb && format_is_srgb(formats[j].format))
            }
            &&& !(exists|i: int|
                0 <= i < formats.len() && (#[trigger] formats[i]).supports_srgb && format_is_srgb(formats[i].format))
                ==> {
                &&& selection.format == TextureFormat::Bgra8Unorm || selection.format == TextureFormat::Rgba8Unorm
                &&& exists|i: int|
                    0 <= i < formats.len() && (#[trigger] formats[i]).format == selection.format
                        && formats[i].supports_srgb && forall|j: int|
                        0 <= j < i ==> !((#[trigger] formats[j]).supports_srgb && (formats[j].format
                            == TextureFormat::Bgra8Unorm || formats[j].format == TextureFormat::Rgba8Unorm))
            }
        },
{
    lemma_first_sdr_format_is_first(formats, true);
    lemma_first_sdr_format_is_first(formats, false);
    if exists|i: int|
        0 <= i < formats.len() && (#[trigger] formats[i]).supports_srgb && format_is_srgb(formats[i].format) {
        let i = choose|i: int|
            0 <= i < formats.len() && (#[trigger] formats[i]).supports_srgb && format_is_srgb(formats[i].format);
        assert(sdr_candidate(formats[i], true));
    } else {
        assert forall|i: int| 0 <= i < formats.len() implies !sdr_candidate(#[trigger] formats[i], true) by {}
    }
}

/// The reason an SDR selection reports is the display's own: a suppressed system, a display
/// that reported SDR, a state whose HDR parameters are not finite with headroom at least one
/// and a positive white scale (reported as a failed query), a valid HDR display whose surface
/// lacks the HDR pair, and each unknown state's own cause, one reason per cause.
pub proof fn law_sdr_reason_is_the_display_state(
    formats: Seq<SurfaceFormatCapability>,
    present_modes: Seq<PresentMode>,
    alpha_modes: Seq<CompositeAlphaMode>,
    usages: u32,
    display: DynamicRange,
    other: UnknownDisplayState,
)
    ensures
        select_surface_spec(formats, present_modes, alpha_modes, usages, display) matches Ok(selection)
            ==> selection.output.mode matches OutputMode::Sdr(reason) ==> {
            &&& display is Suppressed ==> reason == SdrReason::SystemSuppressed
            &&& display is Sdr ==> reason == SdrReason::DisplayReportedSdr
            &&& display matches DynamicRange::Hdr { tone_map_headroom_bits, reference_white_scale_bits } ==> {
                &&& !hdr_parameters_valid(tone_map_headroom_bits, reference_white_scale_bits) ==> reason
                    == SdrReason::DisplayStateQueryFailed
                &&& hdr_parameters_valid(tone_map_headroom_bits, reference_white_scale_bits) ==> reason
                    == SdrReason::HdrSurfacePairMissing && !has_hdr_pair(formats)
            }
            &&& display matches DynamicRange::Unknown(cause) ==> (cause != other && !(cause is StateQueryFailed)
                ==> reason != sdr_reason_spec(DynamicRange::Unknown(other)))
            &&& display matches DynamicRange::Unknown(cause) ==> (reason == SdrReason::DisplayStateQueryFailed
                <==> cause is StateQueryFailed)
            &&& reason != SdrReason::SystemSuppressed || display is Suppressed
        },
{
}

/// The output mapping uniform of a selection as binary32 bit patterns: tone-map headroom,
/// reference white scale, then two zero words.
pub fn output_mapping_bits(selection: SurfaceSelection) -> (mapping: [u32; 4])
    ensures
        mapping@ == seq![selection.output.tone_map_headroom_bits, selection.output.reference_white_scale_bits, 0u32, 0u32],
{
    let mapping = [selection.output.tone_map_headroom_bits, selection.output.reference_white_scale_bits, 0, 0];
    assert(mapping@ =~= seq![selection.output.tone_map_headroom_bits, selection.output.reference_white_scale_bits, 0u32, 0u32]);
    mapping
}

/// The label of the display transfer for diagnostics.
pub fn display_transfer_label(selection: SurfaceSelection) -> (label: &'static str)
    ensures
        label@ == (match selection.output.mode {
            OutputMode::Hdr => "HDR"@,
            OutputMode::Sdr(_) => "SDR"@,
        }),
{
    match selection.output.mode {
        OutputMode::Hdr => "HDR",
        OutputMode::Sdr(_) => "SDR",
    }
}

} // verus!
