//! Block-compression front end for the ISPC texture compressor: output sizing,
//! encoder presets and the checked hand-off of a surface to the compression kernels.

pub mod blocks;
pub mod ispc;
pub mod surface;

pub use surface::{CompressError, RgSurface, RgbaSurface};
pub mod bc1;
pub mod bc5;
pub mod bc7;
