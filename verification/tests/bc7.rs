use intel_tex_2::bc7::{
    alpha_basic_settings, alpha_fast_settings, alpha_slow_settings, alpha_ultra_fast_settings,
    alpha_very_fast_settings, calc_output_size, kernel_settings, kernel_surface,
    opaque_basic_settings, opaque_fast_settings, opaque_slow_settings, opaque_ultra_fast_settings,
    opaque_very_fast_settings, EncodeSettings,
};
use intel_tex_2::ispc::kernel::rgba_surface;
use intel_tex_2::{CompressError, RgbaSurface};

#[test]
fn bc7_output_size() {
    assert_eq!(calc_output_size(0, 0), 0);
    assert_eq!(calc_output_size(4, 4), 16);
    assert_eq!(calc_output_size(8, 4), 2 * 16);
    assert_eq!(calc_output_size(256, 256), 64 * 64 * 16);
    assert_eq!(calc_output_size(1, 1), 16);
    assert_eq!(calc_output_size(4, 5), 2 * 16);
}

const OPAQUE: [fn() -> EncodeSettings; 5] = [
    opaque_ultra_fast_settings,
    opaque_very_fast_settings,
    opaque_fast_settings,
    opaque_basic_settings,
    opaque_slow_settings,
];

const ALPHA: [fn() -> EncodeSettings; 5] = [
    alpha_ultra_fast_settings,
    alpha_very_fast_settings,
    alpha_fast_settings,
    alpha_basic_settings,
    alpha_slow_settings,
];

#[test]
fn opaque_presets_use_three_channels() {
    for preset in OPAQUE {
        let s = preset();
        assert_eq!(s.channels, 3);
        // Mode 7 (the last refine slot) is alpha-only and must be unused.
        assert_eq!(s.refine_iterations[7], 0);
        assert_eq!(s.fast_skip_threshold_mode7, 0);
    }
}

#[test]
fn alpha_presets_use_four_channels() {
    for preset in ALPHA {
        assert_eq!(preset().channels, 4);
    }
}

#[test]
fn presets_enable_at_least_one_mode_group() {
    for preset in OPAQUE.iter().chain(&ALPHA) {
        assert!(preset().mode_selection.iter().any(|&m| m));
    }
}

#[test]
fn enabled_mode_groups_grow_with_quality() {
    for presets in [OPAQUE, ALPHA] {
        for pair in presets.windows(2) {
            let (a, b) = (pair[0](), pair[1]());
            for (ma, mb) in a.mode_selection.iter().zip(b.mode_selection) {
                assert!(!ma || mb, "{a:?} -> {b:?}");
            }
        }
    }
}

#[test]
fn slow_presets_try_mode2() {
    assert!(!opaque_slow_settings().skip_mode2);
    assert!(!alpha_slow_settings().skip_mode2);
    assert!(opaque_basic_settings().skip_mode2);
}

#[test]
fn opaque_ultra_fast_values() {
    let s = opaque_ultra_fast_settings();
    assert_eq!(s.mode_selection, [false, false, false, true]);
    assert_eq!(s.refine_iterations, [2, 2, 2, 1, 2, 2, 1, 0]);
    assert!(s.skip_mode2);
    assert_eq!(
        (s.fast_skip_threshold_mode1, s.fast_skip_threshold_mode3, s.fast_skip_threshold_mode7),
        (3, 1, 0)
    );
    assert_eq!((s.mode45_channel0, s.refine_iterations_channel), (0, 0));
}

#[test]
fn slow_presets_refine_more() {
    let s = opaque_slow_settings();
    assert_eq!(s.refine_iterations, [4, 4, 4, 4, 4, 4, 4, 0]);
    assert_eq!(s.refine_iterations_channel, 4);
    assert_eq!((s.fast_skip_threshold_mode1, s.fast_skip_threshold_mode3), (64, 64));
    let a = alpha_slow_settings();
    assert_eq!(a.refine_iterations, [4; 8]);
    assert_eq!(a.fast_skip_threshold_mode7, 64);
}

#[test]
fn alpha_fast_values() {
    let s = alpha_fast_settings();
    assert_eq!(s.mode_selection, [false, true, true, true]);
    assert_eq!(s.refine_iterations, [2, 1, 2, 1, 2, 2, 2, 2]);
    assert_eq!(
        (s.fast_skip_threshold_mode1, s.fast_skip_threshold_mode3, s.fast_skip_threshold_mode7),
        (4, 4, 8)
    );
    assert_eq!((s.mode45_channel0, s.refine_iterations_channel), (3, 2));
}

#[test]
fn basic_presets_thresholds() {
    assert_eq!(opaque_basic_settings().fast_skip_threshold_mode1, 12);
    assert_eq!(alpha_basic_settings().fast_skip_threshold_mode1, 12);
    assert_eq!(alpha_basic_settings().fast_skip_threshold_mode7, 4);
}

#[test]
fn kernel_settings_copies_every_field() {
    let s = alpha_very_fast_settings();
    let k = kernel_settings(&s);
    assert_eq!(k.mode_selection, s.mode_selection);
    assert_eq!(k.refineIterations, [2, 1, 2, 1, 2, 2, 2, 2]);
    assert_eq!(k.skip_mode2, s.skip_mode2);
    assert_eq!(k.fastSkipTreshold_mode1, 0);
    assert_eq!(k.fastSkipTreshold_mode3, 0);
    assert_eq!(k.fastSkipTreshold_mode7, 4);
    assert_eq!(k.mode45_channel0, 3);
    assert_eq!(k.refineIterations_channel, 2);
    assert_eq!(k.channels, 4);
}

#[test]
fn kernel_settings_takes_counts_as_i32() {
    let mut s = opaque_basic_settings();
    s.refine_iterations[5] = u32::MAX;
    s.fast_skip_threshold_mode3 = 0x8000_0000;
    let k = kernel_settings(&s);
    assert_eq!(k.refineIterations[5], -1);
    assert_eq!(k.fastSkipTreshold_mode3, i32::MIN);
}

#[test]
fn bc7_kernel_surface() {
    let data = vec![0u8; 4 * 4 * 4];
    let surface = RgbaSurface { data: &data, width: 4, height: 4, stride: 16 };
    assert_eq!(kernel_surface(&surface, 16), Ok(rgba_surface { width: 4, height: 4, stride: 16 }));
    assert_eq!(
        kernel_surface(&surface, 8),
        Err(CompressError::OutputSizeMismatch { expected: 16, actual: 8 })
    );
    let short = RgbaSurface { data: &data[..63], width: 4, height: 4, stride: 16 };
    assert_eq!(
        kernel_surface(&short, 16),
        Err(CompressError::InsufficientData { required: 64, actual: 63 })
    );
}
