use intel_tex_2::ispc::kernel::rgba_surface;
use intel_tex_2::{bc1, bc5, bc7};
use intel_tex_2::{CompressError, RgSurface};

#[test]
fn bc5_output_size() {
    assert_eq!(bc5::calc_output_size(0, 0), 0);
    assert_eq!(bc5::calc_output_size(4, 4), 16);
    assert_eq!(bc5::calc_output_size(8, 4), 2 * 16);
    assert_eq!(bc5::calc_output_size(1, 1), 16);
    assert_eq!(bc5::calc_output_size(4, 5), 2 * 16);
    assert_eq!(bc5::calc_output_size(65536, 65536), 16384 * 16384 * 16);
}

#[test]
fn bc5_is_twice_bc1_and_same_as_bc7() {
    for (w, h) in [(0u32, 0u32), (1, 1), (4, 5), (13, 7), (256, 256), (1000, 3)] {
        assert_eq!(bc5::calc_output_size(w, h), 2 * bc1::calc_output_size(w, h));
        assert_eq!(bc5::calc_output_size(w, h), bc7::calc_output_size(w, h));
    }
}

#[test]
fn strip_sizes_add_up() {
    // 24 x 8 strips fill whole blocks, so four of them take the size of 24 x 32.
    let strip = bc5::calc_output_size(24, 8);
    assert_eq!(4 * strip, bc5::calc_output_size(24, 32));
    assert_eq!(bc1::calc_output_size(24, 8) + bc1::calc_output_size(24, 5), bc1::calc_output_size(24, 13));
}

#[test]
fn blocks_cover_every_texel() {
    for (w, h) in [(1u32, 1u32), (3, 5), (17, 1), (16, 1), (7, 7)] {
        let blocks = bc1::calc_output_size(w, h) / 8;
        let texels = (w * h) as usize;
        assert!(blocks * 16 >= texels);
        assert!(blocks * 16 < texels + 16);
    }
}

#[test]
fn bc5_kernel_surface() {
    let data = vec![1u8; 8 * 4 * 2];
    let surface = RgSurface { data: &data, width: 8, height: 4, stride: 16 };
    assert_eq!(bc5::kernel_surface(&surface, 32), Ok(rgba_surface { width: 8, height: 4, stride: 16 }));
    assert_eq!(
        bc5::kernel_surface(&surface, 16),
        Err(CompressError::OutputSizeMismatch { expected: 32, actual: 16 })
    );
    let short = RgSurface { data: &data[..63], width: 8, height: 4, stride: 16 };
    assert_eq!(
        bc5::kernel_surface(&short, 32),
        Err(CompressError::InsufficientData { required: 64, actual: 63 })
    );
}
