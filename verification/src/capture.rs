//! Scientific capture: the alpha-tag protocol of published texels and the unpadding of a
//! row-aligned texture readback into texels.

use vstd::prelude::*;

use crate::extent::RenderExtent;
use crate::tiles::{TraceTermination, termination_from_code};

verus! {

/// Bytes of one `Rgba16Float` texel.
pub const RGBA16_FLOAT_BYTES_PER_PIXEL: u32 = 8;

/// The row alignment of texture-to-buffer copies, `wgpu::COPY_BYTES_PER_ROW_ALIGNMENT`, which
/// wgpu-types defines as 256.
#[verifier::external_body]
fn copy_bytes_per_row_alignment() -> (alignment: u32)
    ensures
        alignment == 256,
{
    wgpu::COPY_BYTES_PER_ROW_ALIGNMENT
}

pub const HALF_POSITIVE_ZERO_BITS: u16 = 0x0000;
pub const HALF_NEGATIVE_ZERO_BITS: u16 = 0x8000;
pub const HALF_ANALYTIC_ESCAPE_TAG_BITS: u16 = 0x3c00;
pub const HALF_SURFACE_RADIANCE_TAG_BITS: u16 = 0x4000;

/// Meaning of one scientific-capture texel.
#[derive(Clone, Copy, Debug, PartialEq, Eq, Structural)]
pub enum ScientificPixelKind {
    /// RGB holds the declared channel model's physical radiance.
    SurfaceRadiance,
    /// RGB is the orientation-only analytic sky preview, not spectral radiance.
    AnalyticEscapePreview,
    /// The ray crossed the horizon; RGB is zero.
    Horizon,
    /// The trace did not produce a physical terminal observable.
    TraceFailure { termination_code: u32 },
    /// The alpha word is outside the published tagging contract.
    Unclassified { alpha_bits: u16 },
}

/// How R, G and B of surface radiance are to be read.
#[derive(Clone, Copy, Debug, PartialEq, Eq, Structural)]
pub enum ScientificChannelModel {
    /// The same model-normalized bolometric intensity in R, G and B.
    BolometricRepeated,
    /// Band-integrated radiances of the visible boxcar bands.
    VisibleBoxcarV1,
}

/// The alpha-word protocol: binary16 `2.0` tags radiance, `1.0` the analytic preview, either
/// zero the horizon, and `-3.0`, `-4.0`, `-5.0`, `-6.0` the failure terminations 3 to 6.
pub open spec fn alpha_kind(alpha_bits: u16) -> ScientificPixelKind {
    if alpha_bits == 0x4000 {
        ScientificPixelKind::SurfaceRadiance
    } else if alpha_bits == 0x3c00 {
        ScientificPixelKind::AnalyticEscapePreview
    } else if alpha_bits == 0x0000 || alpha_bits == 0x8000 {
        ScientificPixelKind::Horizon
    } else if alpha_bits == 0xc200 {
        ScientificPixelKind::TraceFailure { termination_code: 3 }
    } else if alpha_bits == 0xc400 {
        ScientificPixelKind::TraceFailure { termination_code: 4 }
    } else if alpha_bits == 0xc500 {
        ScientificPixelKind::TraceFailure { termination_code: 5 }
    } else if alpha_bits == 0xc600 {
        ScientificPixelKind::TraceFailure { termination_code: 6 }
    } else {
        ScientificPixelKind::Unclassified { alpha_bits }
    }
}

pub fn classify_alpha_bits(alpha_bits: u16) -> (kind: ScientificPixelKind)
    ensures
        kind == alpha_kind(alpha_bits),
{
    match alpha_bits {
        HALF_SURFACE_RADIANCE_TAG_BITS => ScientificPixelKind::SurfaceRadiance,
        HALF_ANALYTIC_ESCAPE_TAG_BITS => ScientificPixelKind::AnalyticEscapePreview,
        HALF_POSITIVE_ZERO_BITS | HALF_NEGATIVE_ZERO_BITS => ScientificPixelKind::Horizon,
        0xc200 => ScientificPixelKind::TraceFailure { termination_code: 3 },
        0xc400 => ScientificPixelKind::TraceFailure { termination_code: 4 },
        0xc500 => ScientificPixelKind::TraceFailure { termination_code: 5 },
        0xc600 => ScientificPixelKind::TraceFailure { termination_code: 6 },
        other => ScientificPixelKind::Unclassified { alpha_bits: other },
    }
}

/// Every failure tag names a failure termination of the trace protocol (singularity guard,
/// step exhaustion, numerical failure or uncertain), and only surface radiance carries physical
/// output.
pub proof fn law_failure_tags_name_failure_terminations(alpha_bits: u16)
    ensures
        alpha_kind(alpha_bits) matches ScientificPixelKind::TraceFailure { termination_code } ==> {
            &&& 3 <= termination_code <= 6
            &&& termination_from_code(termination_code) matches Ok(t) && (t == TraceTermination::SingularityGuard
                || t == TraceTermination::StepExhaustion || t == TraceTermination::NumericalFailure || t
                == TraceTermination::Uncertain)
        },
        alpha_kind(alpha_bits) == ScientificPixelKind::SurfaceRadiance <==> alpha_bits == 0x4000,
{
}

/// One captured texel: binary16 bit patterns in R, G, B, A order.
#[derive(Clone, Copy, Debug, PartialEq, Eq, Structural)]
pub struct ScientificTexel {
    red: u16,
    green: u16,
    blue: u16,
    alpha: u16,
}

impl ScientificTexel {
    pub closed spec fn bits(self) -> Seq<u16> {
        seq![self.red, self.green, self.blue, self.alpha]
    }

    pub fn from_rgba16_float_bits(rgba16_float_bits: [u16; 4]) -> (texel: Self)
        ensures
            texel.bits() == rgba16_float_bits@,
    {
        let texel = ScientificTexel {
            red: rgba16_float_bits[0],
            green: rgba16_float_bits[1],
            blue: rgba16_float_bits[2],
            alpha: rgba16_float_bits[3],
        };
        assert(texel.bits() =~= rgba16_float_bits@);
        texel
    }

    pub fn rgba16_float_bits(self) -> (bits: [u16; 4])
        ensures
            bits@ == self.bits(),
    {
        let bits = [self.red, self.green, self.blue, self.alpha];
        assert(bits@ =~= self.bits());
        bits
    }

    /// The texel's meaning, read from its alpha word.
    pub fn kind(self) -> (kind: ScientificPixelKind)
        ensures
            kind == alpha_kind(self.bits()[3]),
    {
        classify_alpha_bits(self.alpha)
    }

    /// The RGB words, only when the alpha tag identifies physical surface radiance.
    pub fn surface_radiance_rgb16_float_bits(self) -> (rgb: Option<[u16; 3]>)
        ensures
            rgb is Some <==> alpha_kind(self.bits()[3]) == ScientificPixelKind::SurfaceRadiance,
            rgb matches Some(words) ==> words@ == self.bits().subrange(0, 3),
    {
        match self.kind() {
            ScientificPixelKind::SurfaceRadiance => {
                let words = [self.red, self.green, self.blue];
                assert(words@ =~= self.bits().subrange(0, 3));
                Some(words)
            },
            _ => None,
        }
    }
}

/// The little-endian `u16` at `offset`.
pub open spec fn le_u16(bytes: Seq<u8>, offset: int) -> u16 {
    (bytes[offset] as int + 256 * bytes[offset + 1] as int) as u16
}

/// The texel whose eight bytes start at `offset`.
pub open spec fn texel_at(bytes: Seq<u8>, offset: int) -> Seq<u16> {
    seq![le_u16(bytes, offset), le_u16(bytes, offset + 2), le_u16(bytes, offset + 4), le_u16(bytes, offset + 6)]
}

fn read_le_u16(bytes: &[u8], offset: usize) -> (value: u16)
    requires
        offset + 1 < bytes@.len(),
    ensures
        value == le_u16(bytes@, offset as int),
{
    bytes[offset] as u16 + bytes[offset + 1] as u16 * 256
}

/// The texel whose eight little-endian bytes start at `offset`.
pub(crate) fn texel_from_le_bytes(bytes: &[u8], offset: usize) -> (texel: ScientificTexel)
    requires
        offset + 8 <= bytes@.len(),
    ensures
        texel.bits() == texel_at(bytes@, offset as int),
{
    let len = bytes.len();
    assert(offset + 8 <= len);
    let bits = [
        read_le_u16(bytes, offset),
        read_le_u16(bytes, offset + 2),
        read_le_u16(bytes, offset + 4),
        read_le_u16(bytes, offset + 6),
    ];
    let texel = ScientificTexel::from_rgba16_float_bits(bits);
    assert(texel.bits() =~= texel_at(bytes@, offset as int));
    texel
}

/// Why a capture layout cannot be addressed.
#[derive(Clone, Copy, Debug, PartialEq, Eq, Structural)]
pub enum CaptureLayoutError {
    LayoutOverflow,
}

/// Row lengths of a texture readback: the texel bytes and the aligned stride.
#[derive(Clone, Copy, Debug, PartialEq, Eq, Structural)]
pub struct CaptureLayout {
    pub unpadded_bytes_per_row: u32,
    pub padded_bytes_per_row: u32,
    pub buffer_size: u64,
}

pub open spec fn aligned_row(unpadded: int) -> int {
    (unpadded + 255) / 256 * 256
}

/// The readback layout of an `Rgba16Float` extent; `LayoutOverflow` when a row does not fit
/// in `u32`.
pub fn capture_layout(extent: RenderExtent) -> (layout: Result<CaptureLayout, CaptureLayoutError>)
    ensures
        match layout {
            Ok(l) => {
                &&& l.unpadded_bytes_per_row == extent@.0 * 8
                &&& l.padded_bytes_per_row == aligned_row(extent@.0 * 8)
                &&& l.buffer_size == aligned_row(extent@.0 * 8) * extent@.1
            },
            Err(_) => aligned_row(extent@.0 * 8) > u32::MAX,
        },
{
    let width = extent.width();
    let height = extent.height();
    let unpadded = match width.checked_mul(RGBA16_FLOAT_BYTES_PER_PIXEL) {
        Some(unpadded) => unpadded,
        None => return Err(CaptureLayoutError::LayoutOverflow),
    };
    let alignment = copy_bytes_per_row_alignment();
    let rows_of_alignment = unpadded / alignment + if unpadded % alignment == 0 {
        0
    } else {
        1
    };
    let padded = match rows_of_alignment.checked_mul(alignment) {
        Some(padded) => padded,
        None => return Err(CaptureLayoutError::LayoutOverflow),
    };
    proof {
        assert(padded as u64 * height as u64 <= 0xffff_ffffu64 * 0xffff_ffffu64) by (nonlinear_arith)
            requires
                padded <= 0xffff_ffffu32,
                height <= 0xffff_ffffu32,
        ;
    }
    let buffer_size = padded as u64 * height as u64;
    Ok(CaptureLayout { unpadded_bytes_per_row: unpadded, padded_bytes_per_row: padded, buffer_size })
}

/// The readback row layout of an extent whose aligned row fits in `u32`.
pub fn readback_row_layout(extent: RenderExtent) -> (layout: (u32, u32))
    requires
        aligned_row(extent@.0 * 8) <= u32::MAX,
    ensures
        layout.0 == extent@.0 * 8,
        layout.1 == aligned_row(extent@.0 * 8),
{
    let unpadded = extent.width() * RGBA16_FLOAT_BYTES_PER_PIXEL;
    let alignment = copy_bytes_per_row_alignment();
    let padded = (unpadded / alignment + if unpadded % alignment == 0 {
        0
    } else {
        1
    }) * alignment;
    (unpadded, padded)
}

proof fn lemma_cell_below(r: int, row: int, c: int, width: int)
    requires
        0 <= r < row,
        0 <= c < width,
    ensures
        0 <= r * width + c < row * width,
{
    assert(0 <= r * width + c < row * width) by (nonlinear_arith)
        requires
            0 <= r < row,
            0 <= c < width,
    ;
}

proof fn lemma_next_row(row: int, rows: int, width: int)
    requires
        0 <= row < rows,
        width >= 0,
    ensures
        (row + 1) * width == row * width + width,
        row * width + width <= rows * width,
        row * width >= 0,
{
    assert((row + 1) * width == row * width + width) by (nonlinear_arith);
    assert(row * width + width <= rows * width) by (nonlinear_arith)
        requires
            row < rows,
            width >= 0,
    ;
    assert(row * width >= 0) by (nonlinear_arith)
        requires
            row >= 0,
            width >= 0,
    ;
}

proof fn lemma_whole_rows(len: int, padded: int)
    requires
        len >= 0,
        padded > 0,
    ensures
        (len / padded) * padded <= len,
        len / padded >= 0,
{
    assert((len / padded) * padded <= len) by (nonlinear_arith)
        requires
            len >= 0,
            padded > 0,
    ;
}

/// Drops each row's alignment padding: for every whole padded row of `mapped`, its first
/// `unpadded` bytes, in order. The extent's height only sizes the output's first allocation.
pub fn remove_row_padding(
    mapped: &[u8],
    extent: RenderExtent,
    unpadded_bytes_per_row: u32,
    padded_bytes_per_row: u32,
) -> (bytes: Vec<u8>)
    requires
        0 < padded_bytes_per_row,
        unpadded_bytes_per_row <= padded_bytes_per_row,
    ensures
        bytes@.len() == (mapped@.len() as int / padded_bytes_per_row as int) * unpadded_bytes_per_row,
        forall|row: int, column: int|
            0 <= row < mapped@.len() as int / padded_bytes_per_row as int && 0 <= column < unpadded_bytes_per_row
                ==> #[trigger] bytes@[row * unpadded_bytes_per_row + column] == mapped@[row * padded_bytes_per_row
                + column],
{
    let unpadded = unpadded_bytes_per_row as usize;
    let padded = padded_bytes_per_row as usize;
    let len = mapped.len();
    let rows = len / padded;
    proof {
        lemma_whole_rows(mapped@.len() as int, padded as int);
    }
    let capacity = match unpadded.checked_mul(extent.height() as usize) {
        Some(capacity) => capacity,
        None => 0,
    };
    let mut bytes: Vec<u8> = Vec::with_capacity(capacity);
    let mut row: usize = 0;
    let mut start: usize = 0;
    while row < rows
        invariant
            0 < padded,
            unpadded <= padded,
            rows == mapped@.len() as int / padded as int,
            rows * padded <= mapped@.len(),
            len == mapped@.len(),
            row <= rows,
            start == row * padded,
            bytes@.len() == row * unpadded,
            forall|r: int, c: int|
                0 <= r < row && 0 <= c < unpadded ==> #[trigger] bytes@[r * unpadded + c] == mapped@[r * padded + c],
        decreases rows - row,
    {
        proof {
            lemma_next_row(row as int, rows as int, padded as int);
            lemma_next_row(row as int, rows as int, unpadded as int);
        }
        let mut column: usize = 0;
        while column < unpadded
            invariant
                0 < padded,
                unpadded <= padded,
                row < rows,
                start == row * padded,
                start + padded <= mapped@.len(),
                len == mapped@.len(),
                column <= unpadded,
                bytes@.len() == row * unpadded + column,
                row * unpadded >= 0,
                forall|r: int, c: int|
                    0 <= r < row && 0 <= c < unpadded ==> #[trigger] bytes@[r * unpadded + c] == mapped@[r * padded + c],
                forall|c: int| 0 <= c < column ==> #[trigger] bytes@[row * unpadded + c] == mapped@[row * padded + c],
            decreases unpadded - column,
        {
            let ghost prev = bytes@;
            bytes.push(mapped[start + column]);
            proof {
                assert forall|r: int, c: int| 0 <= r < row && 0 <= c < unpadded implies #[trigger] bytes@[r
                    * unpadded + c] == mapped@[r * padded + c] by {
                    lemma_cell_below(r, row as int, c, unpadded as int);
                    assert(prev[r * unpadded + c] == mapped@[r * padded + c]);
                }
                assert forall|c: int| 0 <= c < column + 1 implies #[trigger] bytes@[row * unpadded + c]
                    == mapped@[row * padded + c] by {
                    if c < column {
                        assert(prev[row * unpadded + c] == mapped@[row * padded + c]);
                    }
                }
            }
            column = column + 1;
        }
        proof {
            assert forall|r: int, c: int| 0 <= r < row + 1 && 0 <= c < unpadded implies #[trigger] bytes@[r
                * unpadded + c] == mapped@[r * padded + c] by {
                if r == row {
                    assert(bytes@[row * unpadded + c] == mapped@[row * padded + c]);
                }
            }
        }
        row = row + 1;
        start = start + padded;
    }
    bytes
}

/// Decodes a row-aligned `Rgba16Float` readback into row-major texels: for every whole padded
/// row, `width` texels read from its leading `8 * width` bytes.
pub fn decode_texels(mapped: &[u8], width: u32, padded_bytes_per_row: u32) -> (texels: Vec<ScientificTexel>)
    requires
        0 < padded_bytes_per_row,
        width * 8 <= padded_bytes_per_row,
    ensures
        texels@.len() == (mapped@.len() as int / padded_bytes_per_row as int) * width,
        forall|row: int, column: int|
            0 <= row < mapped@.len() as int / padded_bytes_per_row as int && 0 <= column < width ==> (
            #[trigger] texels@[row * width + column]).bits() == texel_at(mapped@, row * padded_bytes_per_row + 8 * column),
{
    let width_usize = width as usize;
    let padded = padded_bytes_per_row as usize;
    let len = mapped.len();
    let rows = len / padded;
    proof {
        lemma_whole_rows(mapped@.len() as int, padded as int);
    }
    let mut texels: Vec<ScientificTexel> = Vec::new();
    let mut row: usize = 0;
    let mut start: usize = 0;
    while row < rows
        invariant
            width_usize == width,
            0 < padded,
            width_usize * 8 <= padded,
            rows == mapped@.len() as int / padded as int,
            rows * padded <= mapped@.len(),
            len == mapped@.len(),
            row <= rows,
            start == row * padded,
            texels@.len() == row * width_usize,
            forall|r: int, c: int|
                0 <= r < row && 0 <= c < width_usize ==> (#[trigger] texels@[r * width_usize + c]).bits()
                    == texel_at(mapped@, r * padded + 8 * c),
        decreases rows - row,
    {
        proof {
            lemma_next_row(row as int, rows as int, padded as int);
            lemma_next_row(row as int, rows as int, width_usize as int);
        }
        let mut column: usize = 0;
        while column < width_usize
            invariant
                width_usize == width,
                0 < padded,
                width_usize * 8 <= padded,
                row < rows,
                start == row * padded,
                start + padded <= mapped@.len(),
                len == mapped@.len(),
                column <= width_usize,
                texels@.len() == row * width_usize + column,
                row * width_usize >= 0,
                forall|r: int, c: int|
                    0 <= r < row && 0 <= c < width_usize ==> (#[trigger] texels@[r * width_usize + c]).bits()
                        == texel_at(mapped@, r * padded + 8 * c),
                forall|c: int| 0 <= c < column ==> (#[trigger] texels@[row * width_usize + c]).bits() == texel_at(
                    mapped@,
                    row * padded + 8 * c,
                ),
            decreases width_usize - column,
        {
            let offset = start + 8 * column;
            let texel = texel_from_le_bytes(mapped, offset);
            let ghost prev = texels@;
            texels.push(texel);
            proof {
                assert forall|r: int, c: int| 0 <= r < row && 0 <= c < width_usize implies (#[trigger] texels@[r
                    * width_usize + c]).bits() == texel_at(mapped@, r * padded + 8 * c) by {
                    lemma_cell_below(r, row as int, c, width_usize as int);
                    assert(prev[r * width_usize + c].bits() == texel_at(mapped@, r * padded + 8 * c));
                }
                assert forall|c: int| 0 <= c < column + 1 implies (#[trigger] texels@[row * width_usize
                    + c]).bits() == texel_at(mapped@, row * padded + 8 * c) by {
                    if c < column {
                        assert(prev[row * width_usize + c].bits() == texel_at(mapped@, row * padded + 8 * c));
                    }
                }
            }
            column = column + 1;
        }
        proof {
            assert forall|r: int, c: int| 0 <= r < row + 1 && 0 <= c < width_usize implies (#[trigger] texels@[r
                * width_usize + c]).bits() == texel_at(mapped@, r * padded + 8 * c) by {
                if r == row {
                    assert(texels@[row * width_usize + c].bits() == texel_at(mapped@, row * padded + 8 * c));
                }
            }
        }
        row = row + 1;
        start = start + padded;
    }
    texels
}

/// The texels of one published generation, copied without tone mapping.
#[derive(Debug)]
pub struct CapturedTexels {
    pub extent: [u32; 2],
    pub generation: u64,
    pub texels: Vec<ScientificTexel>,
}

/// Decodes the mapped readback of a capture with the given layout.
pub fn captured_texels(
    mapped: &[u8],
    extent: RenderExtent,
    layout: CaptureLayout,
    generation: u64,
) -> (capture: CapturedTexels)
    requires
        layout.unpadded_bytes_per_row == extent@.0 * 8,
        layout.padded_bytes_per_row == aligned_row(extent@.0 * 8),
    ensures
        capture.extent@ == seq![extent@.0, extent@.1],
        capture.generation == generation,
        capture.texels@.len() == (mapped@.len() as int / layout.padded_bytes_per_row as int) * extent@.0,
        forall|row: int, column: int|
            0 <= row < mapped@.len() as int / layout.padded_bytes_per_row as int && 0 <= column < extent@.0 ==> (
            #[trigger] capture.texels@[row * extent@.0 + column]).bits() == texel_at(
                mapped@,
                row * layout.padded_bytes_per_row + 8 * column,
            ),
{
    let width = extent.width();
    let texels = decode_texels(mapped, width, layout.padded_bytes_per_row);
    let result = CapturedTexels { extent: [width, extent.height()], generation, texels };
    assert(result.extent@ =~= seq![extent@.0, extent@.1]);
    result
}

} // verus!
