use gravlume_render::capture::{
    CaptureLayout, CaptureLayoutError, ScientificPixelKind, ScientificTexel, capture_layout, captured_texels,
    classify_alpha_bits, decode_texels, readback_row_layout, remove_row_padding,
};
use gravlume_render::extent::RenderExtent;

#[test]
fn alpha_tag_protocol_classifies_every_published_texel_kind() {
    let cases = [
        (0x4000, ScientificPixelKind::SurfaceRadiance),
        (0x3c00, ScientificPixelKind::AnalyticEscapePreview),
        (0x0000, ScientificPixelKind::Horizon),
        (0x8000, ScientificPixelKind::Horizon),
        (0xc200, ScientificPixelKind::TraceFailure { termination_code: 3 }),
        (0xc400, ScientificPixelKind::TraceFailure { termination_code: 4 }),
        (0xc500, ScientificPixelKind::TraceFailure { termination_code: 5 }),
        (0xc600, ScientificPixelKind::TraceFailure { termination_code: 6 }),
        (0x3555, ScientificPixelKind::Unclassified { alpha_bits: 0x3555 }),
    ];

    for (alpha_bits, expected) in cases {
        assert_eq!(classify_alpha_bits(alpha_bits), expected);
    }
}

fn two_by_two_readback() -> Vec<u8> {
    let first_row = [
        0x00, 0x3c, 0x00, 0x38, 0x00, 0x00, 0x00, 0x40, 0x00, 0x40, 0x00, 0x42, 0x00, 0x44, 0x00, 0xc5,
    ];
    let second_row = [
        0x00, 0x3c, 0x00, 0x00, 0x00, 0x00, 0x00, 0x3c, 0x00, 0x00, 0x00, 0x00, 0x00, 0x00, 0x00, 0x00,
    ];
    let mut bytes = vec![0_u8; 2 * 256];
    bytes[..first_row.len()].copy_from_slice(&first_row);
    bytes[256..256 + second_row.len()].copy_from_slice(&second_row);
    bytes
}

#[test]
fn texture_readback_unpads_rows_and_preserves_normal_scene_linear_half_words() {
    let extent = RenderExtent::new(2, 2).expect("test extent is nonzero");
    let layout = capture_layout(extent).expect("a two-texel row fits");
    let mapped = two_by_two_readback();
    assert_eq!(layout.buffer_size, mapped.len() as u64);

    let capture = captured_texels(&mapped, extent, layout, 17);

    assert_eq!(capture.extent, [2, 2]);
    assert_eq!(capture.generation, 17);
    let words = capture.texels.iter().copied().map(ScientificTexel::rgba16_float_bits).collect::<Vec<_>>();
    assert_eq!(
        words,
        [
            [0x3c00, 0x3800, 0x0000, 0x4000],
            [0x4000, 0x4200, 0x4400, 0xc500],
            [0x3c00, 0x0000, 0x0000, 0x3c00],
            [0x0000, 0x0000, 0x0000, 0x0000],
        ]
    );
    assert_eq!(capture.texels[0].kind(), ScientificPixelKind::SurfaceRadiance);
    assert_eq!(capture.texels[0].surface_radiance_rgb16_float_bits(), Some([0x3c00, 0x3800, 0x0000]));
    assert_eq!(capture.texels[1].kind(), ScientificPixelKind::TraceFailure { termination_code: 5 });
    assert_eq!(capture.texels[2].kind(), ScientificPixelKind::AnalyticEscapePreview);
    assert_eq!(capture.texels[3].kind(), ScientificPixelKind::Horizon);
    assert_eq!(capture.texels[2].surface_radiance_rgb16_float_bits(), None);
}

#[test]
fn capture_rows_are_aligned_to_the_copy_stride() {
    let extent = RenderExtent::new(2, 2).expect("nonzero");
    assert_eq!(
        capture_layout(extent),
        Ok(CaptureLayout { unpadded_bytes_per_row: 16, padded_bytes_per_row: 256, buffer_size: 512 })
    );
    let wide = RenderExtent::new(33, 3).expect("nonzero");
    assert_eq!(
        capture_layout(wide),
        Ok(CaptureLayout { unpadded_bytes_per_row: 264, padded_bytes_per_row: 512, buffer_size: 1_536 })
    );
    let exact = RenderExtent::new(32, 1).expect("nonzero");
    assert_eq!(readback_row_layout(exact), (256, 256));
}

#[test]
fn a_row_that_does_not_fit_u32_is_a_layout_overflow() {
    let extent = RenderExtent::new(u32::MAX / 8 + 1, 1).expect("nonzero");
    assert_eq!(capture_layout(extent), Err(CaptureLayoutError::LayoutOverflow));
    let aligned_overflow = RenderExtent::new(u32::MAX / 8, 1).expect("nonzero");
    assert_eq!(capture_layout(aligned_overflow), Err(CaptureLayoutError::LayoutOverflow));
}

#[test]
fn row_padding_is_dropped_and_partial_rows_are_ignored() {
    let mut mapped: Vec<u8> = (0..10).collect();
    mapped.extend_from_slice(&[200, 201, 202]);
    let extent = RenderExtent::new(3, 2).expect("nonzero");
    let bytes = remove_row_padding(&mapped, extent, 3, 5);
    assert_eq!(bytes, vec![0, 1, 2, 5, 6, 7]);
}

#[test]
fn decoding_reads_little_endian_half_words() {
    let mapped = [0x34, 0x12, 0x78, 0x56, 0xbc, 0x9a, 0xf0, 0xde, 0xff, 0xff];
    let texels = decode_texels(&mapped, 1, 10);
    assert_eq!(texels.len(), 1);
    assert_eq!(texels[0].rgba16_float_bits(), [0x1234, 0x5678, 0x9abc, 0xdef0]);
    let texel = ScientificTexel::from_rgba16_float_bits([1, 2, 3, 0xc600]);
    assert_eq!(texel.kind(), ScientificPixelKind::TraceFailure { termination_code: 6 });
    assert_eq!(texel.surface_radiance_rgb16_float_bits(), None);
}

#[test]
fn empty_rows_unpad_to_nothing() {
    let extent = RenderExtent::new(1, 2).expect("nonzero");
    assert!(remove_row_padding(&[1, 2, 3, 4, 5], extent, 0, 2).is_empty());
    assert!(decode_texels(&[0; 32], 0, 16).is_empty());
}
