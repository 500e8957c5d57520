//! Argument records of the ISPC compression kernels, field for field as the kernels read
//! them. The kernels also take a pointer to the texel data of the surface; it is not part
//! of these records and is attached where the kernel is called.

#![allow(non_camel_case_types, non_snake_case)]

use vstd::prelude::*;

verus! {

/// Dimensions of the surface handed to a kernel: width and height in texels, stride in
/// bytes between the starts of two rows.
#[derive(Debug, Copy, Clone, PartialEq, Eq, Structural)]
pub struct rgba_surface {
    pub width: i32,
    pub height: i32,
    pub stride: i32,
}

/// Settings of the BC6H kernel.
#[derive(Debug, Copy, Clone, PartialEq, Eq, Structural)]
pub struct bc6h_enc_settings {
    pub slow_mode: bool,
    pub fast_mode: bool,
    pub refineIterations_1p: i32,
    pub refineIterations_2p: i32,
    pub fastSkipTreshold: i32,
}

/// Settings of the BC7 kernel.
#[derive(Debug, Copy, Clone)]
pub struct bc7_enc_settings {
    pub mode_selection: [bool; 4],
    pub refineIterations: [i32; 8],
    pub skip_mode2: bool,
    pub fastSkipTreshold_mode1: i32,
    pub fastSkipTreshold_mode3: i32,
    pub fastSkipTreshold_mode7: i32,
    pub mode45_channel0: i32,
    pub refineIterations_channel: i32,
    pub channels: i32,
}

/// Settings of the ETC1 kernel.
#[derive(Debug, Copy, Clone, PartialEq, Eq, Structural)]
pub struct etc_enc_settings {
    pub fastSkipTreshold: i32,
}

} // verus!
