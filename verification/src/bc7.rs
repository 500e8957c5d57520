//! BC7: 16 bytes for each 4x4 block, with encoder presets for opaque and alpha surfaces.

use vstd::prelude::*;

use crate::blocks::{calc_size_u64, output_size};
use crate::ispc::kernel::{bc7_enc_settings, rgba_surface};
use crate::surface::{hand_off, surface_hand_off, CompressError, RgbaSurface};

verus! {

/// Settings of the BC7 encoder.
///
/// `mode_selection` enables the four groups of BC7 modes the encoder searches;
/// `refine_iterations` holds the refinement passes for each of the eight modes, the last
/// one being mode 7, which only alpha surfaces use.
#[derive(Debug, Copy, Clone)]
pub struct EncodeSettings {
    pub mode_selection: [bool; 4],
    pub refine_iterations: [u32; 8],
    pub skip_mode2: bool,
    pub fast_skip_threshold_mode1: u32,
    pub fast_skip_threshold_mode3: u32,
    pub fast_skip_threshold_mode7: u32,
    pub mode45_channel0: u32,
    pub refine_iterations_channel: u32,
    pub channels: i32,
}

/// The contents of an [`EncodeSettings`], with its arrays as sequences.
#[verifier::ext_equal]
pub struct SettingsView {
    pub mode_selection: Seq<bool>,
    pub refine_iterations: Seq<u32>,
    pub skip_mode2: bool,
    pub fast_skip_threshold_mode1: u32,
    pub fast_skip_threshold_mode3: u32,
    pub fast_skip_threshold_mode7: u32,
    pub mode45_channel0: u32,
    pub refine_iterations_channel: u32,
    pub channels: i32,
}

impl View for EncodeSettings {
    type V = SettingsView;

    open spec fn view(&self) -> SettingsView {
        SettingsView {
            mode_selection: self.mode_selection@,
            refine_iterations: self.refine_iterations@,
            skip_mode2: self.skip_mode2,
            fast_skip_threshold_mode1: self.fast_skip_threshold_mode1,
            fast_skip_threshold_mode3: self.fast_skip_threshold_mode3,
            fast_skip_threshold_mode7: self.fast_skip_threshold_mode7,
            mode45_channel0: self.mode45_channel0,
            refine_iterations_channel: self.refine_iterations_channel,
            channels: self.channels,
        }
    }
}

/// Number of quality levels of each preset ladder, from ultra fast (0) to slow (4).
pub open spec fn preset_levels() -> int {
    5
}

/// The opaque presets, by quality level: ultra fast, very fast, fast, basic, slow.
pub open spec fn opaque_preset(level: int) -> SettingsView {
    if level == 0 {
        SettingsView {
            mode_selection: seq![false, false, false, true],
            refine_iterations: seq![2, 2, 2, 1, 2, 2, 1, 0],
            skip_mode2: true,
            fast_skip_threshold_mode1: 3,
            fast_skip_threshold_mode3: 1,
            fast_skip_threshold_mode7: 0,
            mode45_channel0: 0,
            refine_iterations_channel: 0,
            channels: 3,
        }
    } else if level == 1 {
        SettingsView {
            mode_selection: seq![false, true, false, true],
            refine_iterations: seq![2, 2, 2, 1, 2, 2, 1, 0],
            skip_mode2: true,
            fast_skip_threshold_mode1: 3,
            fast_skip_threshold_mode3: 1,
            fast_skip_threshold_mode7: 0,
            mode45_channel0: 0,
            refine_iterations_channel: 0,
            channels: 3,
        }
    } else if level == 2 {
        SettingsView {
            mode_selection: seq![false, true, false, true],
            refine_iterations: seq![2, 2, 2, 1, 2, 2, 2, 0],
            skip_mode2: true,
            fast_skip_threshold_mode1: 12,
            fast_skip_threshold_mode3: 4,
            fast_skip_threshold_mode7: 0,
            mode45_channel0: 0,
            refine_iterations_channel: 0,
            channels: 3,
        }
    } else if level == 3 {
        SettingsView {
            mode_selection: seq![true, true, true, true],
            refine_iterations: seq![2, 2, 2, 2, 2, 2, 2, 0],
            skip_mode2: true,
            fast_skip_threshold_mode1: 12,
            fast_skip_threshold_mode3: 8,
            fast_skip_threshold_mode7: 0,
            mode45_channel0: 0,
            refine_iterations_channel: 2,
            channels: 3,
        }
    } else {
        SettingsView {
            mode_selection: seq![true, true, true, true],
            refine_iterations: seq![4, 4, 4, 4, 4, 4, 4, 0],
            skip_mode2: false,
            fast_skip_threshold_mode1: 64,
            fast_skip_threshold_mode3: 64,
            fast_skip_threshold_mode7: 0,
            mode45_channel0: 0,
            refine_iterations_channel: 4,
            channels: 3,
        }
    }
}

/// The presets for surfaces with alpha, by quality level: ultra fast, very fast, fast,
/// basic, slow.
pub open spec fn alpha_preset(level: int) -> SettingsView {
    if level == 0 {
        SettingsView {
            mode_selection: seq![false, false, true, true],
            refine_iterations: seq![2, 1, 2, 1, 1, 1, 2, 2],
            skip_mode2: true,
            fast_skip_threshold_mode1: 0,
            fast_skip_threshold_mode3: 0,
            fast_skip_threshold_mode7: 4,
            mode45_channel0: 3,
            refine_iterations_channel: 1,
            channels: 4,
        }
    } else if level == 1 {
        SettingsView {
            mode_selection: seq![false, true, true, true],
            refine_iterations: seq![2, 1, 2, 1, 2, 2, 2, 2],
            skip_mode2: true,
            fast_skip_threshold_mode1: 0,
            fast_skip_threshold_mode3: 0,
            fast_skip_threshold_mode7: 4,
            mode45_channel0: 3,
            refine_iterations_channel: 2,
            channels: 4,
        }
    } else if level == 2 {
        SettingsView {
            mode_selection: seq![false, true, true, true],
            refine_iterations: seq![2, 1, 2, 1, 2, 2, 2, 2],
            skip_mode2: true,
            fast_skip_threshold_mode1: 4,
            fast_skip_threshold_mode3: 4,
            fast_skip_threshold_mode7: 8,
            mode45_channel0: 3,
            refine_iterations_channel: 2,
            channels: 4,
        }
    } else if level == 3 {
        SettingsView {
            mode_selection: seq![true, true, true, true],
            refine_iterations: seq![2, 2, 2, 2, 2, 2, 2, 2],
            skip_mode2: true,
            fast_skip_threshold_mode1: 12,
            fast_skip_threshold_mode3: 8,
            fast_skip_threshold_mode7: 4,
            mode45_channel0: 0,
            refine_iterations_channel: 2,
            channels: 4,
        }
    } else {
        SettingsView {
            mode_selection: seq![true, true, true, true],
            refine_iterations: seq![4, 4, 4, 4, 4, 4, 4, 4],
            skip_mode2: false,
            fast_skip_threshold_mode1: 64,
            fast_skip_threshold_mode3: 64,
            fast_skip_threshold_mode7: 64,
            mode45_channel0: 0,
            refine_iterations_channel: 4,
            channels: 4,
        }
    }
}

/// Every opaque preset encodes three channels and leaves mode 7, which only alpha uses,
/// without refinement passes or a fast-skip threshold.
pub proof fn lemma_opaque_presets_leave_mode7_unused(level: int)
    requires
        0 <= level < preset_levels(),
    ensures
        opaque_preset(level).channels == 3,
        opaque_preset(level).refine_iterations[7] == 0,
        opaque_preset(level).fast_skip_threshold_mode7 == 0,
{
}

/// Every alpha preset encodes four channels.
pub proof fn lemma_alpha_presets_use_four_channels(level: int)
    requires
        0 <= level < preset_levels(),
    ensures
        alpha_preset(level).channels == 4,
{
}

/// Every preset enables at least one group of modes.
pub proof fn lemma_presets_enable_a_mode_group(level: int)
    requires
        0 <= level < preset_levels(),
    ensures
        exists|i: int| 0 <= i < 4 && #[trigger] opaque_preset(level).mode_selection[i],
        exists|i: int| 0 <= i < 4 && #[trigger] alpha_preset(level).mode_selection[i],
{
    assert(opaque_preset(level).mode_selection[3]);
    assert(alpha_preset(level).mode_selection[3]);
}

/// Along each ladder, a mode group enabled at one quality level stays enabled at every
/// higher level.
pub proof fn lemma_mode_groups_grow_with_quality(lower: int, higher: int, group: int)
    requires
        0 <= lower <= higher < preset_levels(),
        0 <= group < 4,
    ensures
        opaque_preset(lower).mode_selection[group] ==> opaque_preset(higher).mode_selection[group],
        alpha_preset(lower).mode_selection[group] ==> alpha_preset(higher).mode_selection[group],
{
}

/// Which mode groups each quality level searches, on both ladders: group 0 from basic up,
/// group 1 from very fast up, group 2 from basic up for opaque surfaces and at every level
/// for alpha surfaces (its modes code alpha separately), group 3 at every level.
pub proof fn lemma_mode_groups_by_quality(level: int)
    requires
        0 <= level < preset_levels(),
    ensures
        opaque_preset(level).mode_selection.len() == 4,
        alpha_preset(level).mode_selection.len() == 4,
        opaque_preset(level).mode_selection[0] <==> level >= 3,
        alpha_preset(level).mode_selection[0] <==> level >= 3,
        opaque_preset(level).mode_selection[1] <==> level >= 1,
        alpha_preset(level).mode_selection[1] <==> level >= 1,
        opaque_preset(level).mode_selection[2] <==> level >= 3,
        alpha_preset(level).mode_selection[2],
        opaque_preset(level).mode_selection[3],
        alpha_preset(level).mode_selection[3],
{
}

/// The basic and slow presets search every mode group.
pub proof fn lemma_top_presets_search_every_group(level: int, group: int)
    requires
        3 <= level < preset_levels(),
        0 <= group < 4,
    ensures
        opaque_preset(level).mode_selection[group],
        alpha_preset(level).mode_selection[group],
{
}

/// Only the slow presets try mode 2; every faster preset skips it.
pub proof fn lemma_only_slow_presets_try_mode2(level: int)
    requires
        0 <= level < preset_levels(),
    ensures
        opaque_preset(level).skip_mode2 <==> level < 4,
        alpha_preset(level).skip_mode2 <==> level < 4,
{
}

/// Refinement never decreases with quality: for each mode and for the channel refinement,
/// a higher level refines at least as much as a lower one.
pub proof fn lemma_refinement_grows_with_quality(lower: int, higher: int, mode: int)
    requires
        0 <= lower <= higher < preset_levels(),
        0 <= mode < 8,
    ensures
        opaque_preset(lower).refine_iterations[mode] <= opaque_preset(higher).refine_iterations[mode],
        alpha_preset(lower).refine_iterations[mode] <= alpha_preset(higher).refine_iterations[mode],
        opaque_preset(lower).refine_iterations_channel <= opaque_preset(higher).refine_iterations_channel,
        alpha_preset(lower).refine_iterations_channel <= alpha_preset(higher).refine_iterations_channel,
{
}

/// The slow presets refine every mode they use, and the channel refinement, two passes
/// more than the basic presets.
pub proof fn lemma_slow_refines_two_more_than_basic(mode: int)
    requires
        0 <= mode < 8,
    ensures
        mode < 7 ==> opaque_preset(4).refine_iterations[mode] == opaque_preset(3).refine_iterations[mode] + 2,
        alpha_preset(4).refine_iterations[mode] == alpha_preset(3).refine_iterations[mode] + 2,
        opaque_preset(4).refine_iterations_channel == opaque_preset(3).refine_iterations_channel + 2,
        alpha_preset(4).refine_iterations_channel == alpha_preset(3).refine_iterations_channel + 2,
{
}

/// The fast-skip thresholds of modes 1 and 3 never decrease with quality.
pub proof fn lemma_skip_thresholds_grow_with_quality(lower: int, higher: int)
    requires
        0 <= lower <= higher < preset_levels(),
    ensures
        opaque_preset(lower).fast_skip_threshold_mode1 <= opaque_preset(higher).fast_skip_threshold_mode1,
        opaque_preset(lower).fast_skip_threshold_mode3 <= opaque_preset(higher).fast_skip_threshold_mode3,
        alpha_preset(lower).fast_skip_threshold_mode1 <= alpha_preset(higher).fast_skip_threshold_mode1,
        alpha_preset(lower).fast_skip_threshold_mode3 <= alpha_preset(higher).fast_skip_threshold_mode3,
{
}

/// Alpha presets use mode 7: it gets refinement passes and a fast-skip threshold at every
/// level. Below basic, modes 4 and 5 put the alpha channel (3) first.
pub proof fn lemma_alpha_presets_use_mode7(level: int)
    requires
        0 <= level < preset_levels(),
    ensures
        alpha_preset(level).refine_iterations[7] >= 2,
        alpha_preset(level).fast_skip_threshold_mode7 >= 4,
        alpha_preset(level).mode45_channel0 == 3 <==> level < 3,
        alpha_preset(level).mode45_channel0 == 0 <==> level >= 3,
        opaque_preset(level).mode45_channel0 == 0,
{
}

/// Every count of every preset fits in the kernel's `i32`, so [`kernel_settings`] hands the
/// kernel the same numbers.
pub proof fn lemma_preset_counts_fit_i32(level: int, mode: int)
    requires
        0 <= level < preset_levels(),
        0 <= mode < 8,
    ensures
        opaque_preset(level).refine_iterations[mode] <= i32::MAX,
        alpha_preset(level).refine_iterations[mode] <= i32::MAX,
        opaque_preset(level).fast_skip_threshold_mode1 <= i32::MAX,
        opaque_preset(level).fast_skip_threshold_mode3 <= i32::MAX,
        opaque_preset(level).fast_skip_threshold_mode7 <= i32::MAX,
        alpha_preset(level).fast_skip_threshold_mode1 <= i32::MAX,
        alpha_preset(level).fast_skip_threshold_mode3 <= i32::MAX,
        alpha_preset(level).fast_skip_threshold_mode7 <= i32::MAX,
        opaque_preset(level).refine_iterations_channel <= i32::MAX,
        alpha_preset(level).refine_iterations_channel <= i32::MAX,
{
}

/// Bytes of one compressed BC7 block.
pub open spec fn block_bytes() -> nat {
    16
}

/// Size in bytes of a `width` x `height` surface compressed to BC7: one block for every
/// 16 texels, a partial block rounded up.
pub fn calc_output_size(width: u32, height: u32) -> (size: usize)
    requires
        output_size(width as nat, height as nat, block_bytes()) <= usize::MAX,
    ensures
        size == output_size(width as nat, height as nat, block_bytes()),
{
    calc_size_u64(width, height, 16) as usize
}

/// Checks that `surface` and an output buffer of `blocks_len` bytes may be handed to the
/// BC7 kernel, and gives the kernel's surface record: the output must hold exactly
/// `calc_output_size` bytes, then the data at least `height * stride` bytes.
pub fn kernel_surface(surface: &RgbaSurface, blocks_len: usize) -> (r: Result<rgba_surface, CompressError>)
    ensures
        r == surface_hand_off(
            surface.data@.len(),
            surface.width,
            surface.height,
            surface.stride,
            blocks_len as nat,
            block_bytes(),
        ),
{
    hand_off(surface.data.len(), surface.width, surface.height, surface.stride, blocks_len, 16)
}

/// The BC7 kernel's settings record for `settings`: the same values, each unsigned count
/// taken as the kernel's `i32` (`as i32`).
pub fn kernel_settings(settings: &EncodeSettings) -> (k: bc7_enc_settings)
    ensures
        k.mode_selection@ == settings.mode_selection@,
        forall|i: int| 0 <= i < 8 ==> k.refineIterations@[i] == settings.refine_iterations@[i] as i32,
        k.skip_mode2 == settings.skip_mode2,
        k.fastSkipTreshold_mode1 == settings.fast_skip_threshold_mode1 as i32,
        k.fastSkipTreshold_mode3 == settings.fast_skip_threshold_mode3 as i32,
        k.fastSkipTreshold_mode7 == settings.fast_skip_threshold_mode7 as i32,
        k.mode45_channel0 == settings.mode45_channel0 as i32,
        k.refineIterations_channel == settings.refine_iterations_channel as i32,
        k.channels == settings.channels,
{
    bc7_enc_settings {
        mode_selection: settings.mode_selection,
        refineIterations: [
            settings.refine_iterations[0] as i32,
            settings.refine_iterations[1] as i32,
            settings.refine_iterations[2] as i32,
            settings.refine_iterations[3] as i32,
            settings.refine_iterations[4] as i32,
            settings.refine_iterations[5] as i32,
            settings.refine_iterations[6] as i32,
            settings.refine_iterations[7] as i32,
        ],
        skip_mode2: settings.skip_mode2,
        fastSkipTreshold_mode1: settings.fast_skip_threshold_mode1 as i32,
        fastSkipTreshold_mode3: settings.fast_skip_threshold_mode3 as i32,
        fastSkipTreshold_mode7: settings.fast_skip_threshold_mode7 as i32,
        mode45_channel0: settings.mode45_channel0 as i32,
        refineIterations_channel: settings.refine_iterations_channel as i32,
        channels: settings.channels,
    }
}

/// Opaque preset, ultra fast.
pub fn opaque_ultra_fast_settings() -> (s: EncodeSettings)
    ensures
        s@ == opaque_preset(0),
{
    EncodeSettings {
        channels: 3,
        mode_selection: [false, false, false, true],
        fast_skip_threshold_mode1: 3,
        fast_skip_threshold_mode3: 1,
        fast_skip_threshold_mode7: 0,
        skip_mode2: true,
        mode45_channel0: 0,
        refine_iterations_channel: 0,
        refine_iterations: [2, 2, 2, 1, 2, 2, 1, 0],
    }
}

/// Opaque preset, very fast.
pub fn opaque_very_fast_settings() -> (s: EncodeSettings)
    ensures
        s@ == opaque_preset(1),
{
    EncodeSettings {
        channels: 3,
        mode_selection: [false, true, false, true],
        fast_skip_threshold_mode1: 3,
        fast_skip_threshold_mode3: 1,
        fast_skip_threshold_mode7: 0,
        skip_mode2: true,
        mode45_channel0: 0,
        refine_iterations_channel: 0,
        refine_iterations: [2, 2, 2, 1, 2, 2, 1, 0],
    }
}

/// Opaque preset, fast.
pub fn opaque_fast_settings() -> (s: EncodeSettings)
    ensures
        s@ == opaque_preset(2),
{
    EncodeSettings {
        channels: 3,
        mode_selection: [false, true, false, true],
        fast_skip_threshold_mode1: 12,
        fast_skip_threshold_mode3: 4,
        fast_skip_threshold_mode7: 0,
        skip_mode2: true,
        mode45_channel0: 0,
        refine_iterations_channel: 0,
        refine_iterations: [2, 2, 2, 1, 2, 2, 2, 0],
    }
}

/// Opaque preset, basic.
pub fn opaque_basic_settings() -> (s: EncodeSettings)
    ensures
        s@ == opaque_preset(3),
{
    EncodeSettings {
        channels: 3,
        mode_selection: [true, true, true, true],
        fast_skip_threshold_mode1: 8 + 4,
        fast_skip_threshold_mode3: 8,
        fast_skip_threshold_mode7: 0,
        skip_mode2: true,
        mode45_channel0: 0,
        refine_iterations_channel: 2,
        refine_iterations: [2, 2, 2, 2, 2, 2, 2, 0],
    }
}

/// Opaque preset, slow.
pub fn opaque_slow_settings() -> (s: EncodeSettings)
    ensures
        s@ == opaque_preset(4),
{
    let more_refinement: u32 = 2;
    EncodeSettings {
        channels: 3,
        mode_selection: [true, true, true, true],
        fast_skip_threshold_mode1: 64,
        fast_skip_threshold_mode3: 64,
        fast_skip_threshold_mode7: 0,
        skip_mode2: false,
        mode45_channel0: 0,
        refine_iterations_channel: 2 + more_refinement,
        refine_iterations: [
            2 + more_refinement,
            2 + more_refinement,
            2 + more_refinement,
            2 + more_refinement,
            2 + more_refinement,
            2 + more_refinement,
            2 + more_refinement,
            0,
        ],
    }
}

/// Alpha preset, ultra fast.
pub fn alpha_ultra_fast_settings() -> (s: EncodeSettings)
    ensures
        s@ == alpha_preset(0),
{
    EncodeSettings {
        channels: 4,
        mode_selection: [false, false, true, true],
        fast_skip_threshold_mode1: 0,
        fast_skip_threshold_mode3: 0,
        fast_skip_threshold_mode7: 4,
        skip_mode2: true,
        mode45_channel0: 3,
        refine_iterations_channel: 1,
        refine_iterations: [2, 1, 2, 1, 1, 1, 2, 2],
    }
}

/// Alpha preset, very fast.
pub fn alpha_very_fast_settings() -> (s: EncodeSettings)
    ensures
        s@ == alpha_preset(1),
{
    EncodeSettings {
        channels: 4,
        mode_selection: [false, true, true, true],
        fast_skip_threshold_mode1: 0,
        fast_skip_threshold_mode3: 0,
        fast_skip_threshold_mode7: 4,
        skip_mode2: true,
        mode45_channel0: 3,
        refine_iterations_channel: 2,
        refine_iterations: [2, 1, 2, 1, 2, 2, 2, 2],
    }
}

/// Alpha preset, fast.
pub fn alpha_fast_settings() -> (s: EncodeSettings)
    ensures
        s@ == alpha_preset(2),
{
    EncodeSettings {
        channels: 4,
        mode_selection: [false, true, true, true],
        fast_skip_threshold_mode1: 4,
        fast_skip_threshold_mode3: 4,
        fast_skip_threshold_mode7: 8,
        skip_mode2: true,
        mode45_channel0: 3,
        refine_iterations_channel: 2,
        refine_iterations: [2, 1, 2, 1, 2, 2, 2, 2],
    }
}

/// Alpha preset, basic.
pub fn alpha_basic_settings() -> (s: EncodeSettings)
    ensures
        s@ == alpha_preset(3),
{
    EncodeSettings {
        channels: 4,
        mode_selection: [true, true, true, true],
        fast_skip_threshold_mode1: 8 + 4,
        fast_skip_threshold_mode3: 8,
        fast_skip_threshold_mode7: 4,
        skip_mode2: true,
        mode45_channel0: 0,
        refine_iterations_channel: 2,
        refine_iterations: [2, 2, 2, 2, 2, 2, 2, 2],
    }
}

/// Alpha preset, slow.
pub fn alpha_slow_settings() -> (s: EncodeSettings)
    ensures
        s@ == alpha_preset(4),
{
    let more_refinement: u32 = 2;
    EncodeSettings {
        channels: 4,
        mode_selection: [true, true, true, true],
        fast_skip_threshold_mode1: 64,
        fast_skip_threshold_mode3: 64,
        fast_skip_threshold_mode7: 64,
        skip_mode2: false,
        mode45_channel0: 0,
        refine_iterations_channel: 2 + more_refinement,
        refine_iterations: [
            2 + more_refinement,
            2 + more_refinement,
            2 + more_refinement,
            2 + more_refinement,
            2 + more_refinement,
            2 + more_refinement,
            2 + more_refinement,
            2 + more_refinement,
        ],
    }
}

/// On a surface that fills whole blocks the format takes one byte per texel.
pub proof fn lemma_data_rate(width: nat, height: nat)
    requires
        (width * height) % 16 == 0,
    ensures
        output_size(width, height, block_bytes()) == width * height,
{
    let n = width * height;
    assert(crate::blocks::block_count(width, height) == n / 16);
    assert((n / 16) * 16 == n) by (nonlinear_arith)
        requires
            n % 16 == 0,
    ;
}

} // verus!
