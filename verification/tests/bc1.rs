use intel_tex_2::bc1::{calc_output_size, kernel_surface};
use intel_tex_2::ispc::kernel::rgba_surface;
use intel_tex_2::{CompressError, RgbaSurface};

#[test]
fn bc1_output_size() {
    assert_eq!(calc_output_size(0, 0), 0);
    assert_eq!(calc_output_size(4, 4), 8);
    assert_eq!(calc_output_size(8, 4), 2 * 8);
    assert_eq!(calc_output_size(256, 256), 64 * 64 * 8);
    assert_eq!(calc_output_size(4096, 4096), 1024 * 1024 * 8);
    // Partial blocks are rounded up by texel count.
    assert_eq!(calc_output_size(1, 1), 8);
    assert_eq!(calc_output_size(4, 5), 2 * 8);
}

#[test]
fn output_size_does_not_overflow_u32() {
    assert_eq!(calc_output_size(65536, 65536), 16384 * 16384 * 8);
}

#[test]
fn bc1_largest_surface_size() {
    let texels = u32::MAX as usize * u32::MAX as usize;
    assert_eq!(calc_output_size(u32::MAX, u32::MAX), (texels / 16 + 1) * 8);
}

#[test]
fn bc1_output_size_matches_block_count() {
    for (w, h) in [(4u32, 4u32), (8, 4), (4, 8), (16, 16), (64, 32), (128, 256), (1024, 4)] {
        let blocks = (w as usize / 4) * (h as usize / 4);
        assert_eq!(calc_output_size(w, h), blocks * 8, "{w}x{h}");
    }
}

#[test]
fn bc1_empty_surface_has_no_output() {
    assert_eq!(calc_output_size(0, 64), 0);
    assert_eq!(calc_output_size(64, 0), 0);
}

#[test]
fn bc1_kernel_surface_accepts_exact_buffer() {
    let data = vec![7u8; 8 * 8 * 4];
    let surface = RgbaSurface { data: &data, width: 8, height: 8, stride: 32 };
    assert_eq!(
        kernel_surface(&surface, 32),
        Ok(rgba_surface { width: 8, height: 8, stride: 32 })
    );
}

#[test]
fn bc1_kernel_surface_rejects_wrong_output_len() {
    let data = vec![7u8; 8 * 8 * 4];
    let surface = RgbaSurface { data: &data, width: 8, height: 8, stride: 32 };
    assert_eq!(
        kernel_surface(&surface, 31),
        Err(CompressError::OutputSizeMismatch { expected: 32, actual: 31 })
    );
    assert_eq!(
        kernel_surface(&surface, 33),
        Err(CompressError::OutputSizeMismatch { expected: 32, actual: 33 })
    );
}

#[test]
fn bc1_kernel_surface_rejects_short_data() {
    let data = vec![7u8; 8 * 8 * 4];
    let short = RgbaSurface { data: &data[..255], width: 8, height: 8, stride: 32 };
    assert_eq!(
        kernel_surface(&short, 32),
        Err(CompressError::InsufficientData { required: 256, actual: 255 })
    );
    let wide_stride = RgbaSurface { data: &data, width: 8, height: 8, stride: 33 };
    assert_eq!(
        kernel_surface(&wide_stride, 32),
        Err(CompressError::InsufficientData { required: 264, actual: 256 })
    );
}

#[test]
fn bc1_kernel_surface_checks_output_before_data() {
    let surface = RgbaSurface { data: &[], width: 4, height: 4, stride: 16 };
    assert_eq!(
        kernel_surface(&surface, 0),
        Err(CompressError::OutputSizeMismatch { expected: 8, actual: 0 })
    );
}

#[test]
fn bc1_kernel_surface_empty_surface() {
    let surface = RgbaSurface { data: &[], width: 0, height: 0, stride: 0 };
    assert_eq!(
        kernel_surface(&surface, 0),
        Ok(rgba_surface { width: 0, height: 0, stride: 0 })
    );
}

#[test]
fn bc1_kernel_surface_keeps_padded_stride() {
    let data = vec![0u8; 12 * (20 * 4 + 3)];
    let surface = RgbaSurface { data: &data, width: 20, height: 12, stride: 83 };
    assert_eq!(
        kernel_surface(&surface, calc_output_size(20, 12)),
        Ok(rgba_surface { width: 20, height: 12, stride: 83 })
    );
}

#[test]
fn bc1_kernel_surface_takes_dimensions_as_i32() {
    let surface = RgbaSurface { data: &[], width: 0x8000_0000, height: 0, stride: 0 };
    assert_eq!(
        kernel_surface(&surface, 0),
        Ok(rgba_surface { width: i32::MIN, height: 0, stride: 0 })
    );
}
