//! Surfaces handed to the encoders and the checks made before a kernel may run on them.

use vstd::prelude::*;

use crate::blocks::{calc_size_u64, output_size};
use crate::ispc::kernel::rgba_surface;

verus! {

/// A surface of 8-bit RGBA texels: `width` x `height` texels, rows `stride` bytes apart.
pub struct RgbaSurface<'a> {
    pub data: &'a [u8],
    pub width: u32,
    pub height: u32,
    pub stride: u32,
}

/// A surface of 8-bit red-green texels: `width` x `height` texels, rows `stride` bytes apart.
pub struct RgSurface<'a> {
    pub data: &'a [u8],
    pub width: u32,
    pub height: u32,
    pub stride: u32,
}

/// Why a surface cannot be handed to a compression kernel.
#[derive(Debug, Copy, Clone, PartialEq, Eq, Structural)]
pub enum CompressError {
    /// The output buffer does not hold exactly the compressed size of the surface.
    OutputSizeMismatch { expected: u64, actual: usize },
    /// The surface data is shorter than `height * stride` bytes.
    InsufficientData { required: u64, actual: usize },
}

/// What the hand-off of a surface to a kernel gives: the kernel's surface record when the
/// output buffer has exactly the compressed size and the data covers `height` rows of
/// `stride` bytes, the first failing check otherwise. The output size is checked first.
pub open spec fn surface_hand_off(
    data_len: nat,
    width: u32,
    height: u32,
    stride: u32,
    blocks_len: nat,
    block_bytes: nat,
) -> Result<rgba_surface, CompressError> {
    let expected = output_size(width as nat, height as nat, block_bytes);
    let required = height as nat * stride as nat;
    if blocks_len != expected {
        Err(CompressError::OutputSizeMismatch { expected: expected as u64, actual: blocks_len as usize })
    } else if data_len < required {
        Err(CompressError::InsufficientData { required: required as u64, actual: data_len as usize })
    } else {
        Ok(rgba_surface { width: width as i32, height: height as i32, stride: stride as i32 })
    }
}

/// The hand-off succeeds exactly when the output buffer has the compressed size and the
/// data covers `height` rows of `stride` bytes (trailing bytes beyond that are allowed),
/// and then gives the surface's own dimensions.
pub proof fn lemma_hand_off_accepts(
    data_len: nat,
    width: u32,
    height: u32,
    stride: u32,
    blocks_len: nat,
    block_bytes: nat,
)
    ensures
        surface_hand_off(data_len, width, height, stride, blocks_len, block_bytes) is Ok
            <==> (blocks_len == output_size(width as nat, height as nat, block_bytes)
                && data_len >= height as nat * stride as nat),
        surface_hand_off(data_len, width, height, stride, blocks_len, block_bytes) matches Ok(k)
            ==> k.width == width as i32 && k.height == height as i32 && k.stride == stride as i32,
{
}

/// Each refusal names its cause and only comes on it: a mismatched output buffer, checked
/// first, or data shorter than `height * stride` bytes.
pub proof fn lemma_hand_off_refusals(
    data_len: nat,
    width: u32,
    height: u32,
    stride: u32,
    blocks_len: nat,
    block_bytes: nat,
)
    requires
        block_bytes <= 16,
        data_len <= usize::MAX,
        blocks_len <= usize::MAX,
    ensures
        (surface_hand_off(data_len, width, height, stride, blocks_len, block_bytes)
            matches Err(CompressError::OutputSizeMismatch { expected, actual }))
            <==> blocks_len != output_size(width as nat, height as nat, block_bytes),
        surface_hand_off(data_len, width, height, stride, blocks_len, block_bytes)
            matches Err(CompressError::OutputSizeMismatch { expected, actual })
            ==> expected == output_size(width as nat, height as nat, block_bytes) && actual == blocks_len,
        (surface_hand_off(data_len, width, height, stride, blocks_len, block_bytes)
            matches Err(CompressError::InsufficientData { required, actual }))
            <==> (blocks_len == output_size(width as nat, height as nat, block_bytes)
                && data_len < height as nat * stride as nat),
        surface_hand_off(data_len, width, height, stride, blocks_len, block_bytes)
            matches Err(CompressError::InsufficientData { required, actual })
            ==> required == height as nat * stride as nat && actual == data_len,
{
    crate::blocks::lemma_output_size_fits_64_bits(width, height, block_bytes);
    assert(height as nat * stride as nat <= 0xffff_fffe_0000_0001) by (nonlinear_arith)
        requires
            height <= 0xffff_ffff,
            stride <= 0xffff_ffff,
    ;
}

/// Handing over more of a buffer than the surface needs never turns an accepted hand-off
/// into a refusal, and gives the same surface record.
pub proof fn lemma_hand_off_allows_trailing_data(
    data_len: nat,
    extra: nat,
    width: u32,
    height: u32,
    stride: u32,
    blocks_len: nat,
    block_bytes: nat,
)
    requires
        surface_hand_off(data_len, width, height, stride, blocks_len, block_bytes) is Ok,
    ensures
        surface_hand_off(data_len + extra, width, height, stride, blocks_len, block_bytes)
            == surface_hand_off(data_len, width, height, stride, blocks_len, block_bytes),
{
}

/// Checks a surface and an output buffer of `blocks_len` bytes for a kernel whose blocks
/// take `block_bytes` bytes, and gives the kernel's surface record.
pub(crate) fn hand_off(
    data_len: usize,
    width: u32,
    height: u32,
    stride: u32,
    blocks_len: usize,
    block_bytes: u64,
) -> (r: Result<rgba_surface, CompressError>)
    requires
        block_bytes <= 16,
    ensures
        r == surface_hand_off(data_len as nat, width, height, stride, blocks_len as nat, block_bytes as nat),
{
    let expected = calc_size_u64(width, height, block_bytes);
    if blocks_len as u64 != expected {
        return Err(CompressError::OutputSizeMismatch { expected, actual: blocks_len });
    }
    assert(height * stride <= 0xffff_fffe_0000_0001) by (nonlinear_arith)
        requires
            height <= 0xffff_ffff,
            stride <= 0xffff_ffff,
    ;
    let required: u64 = (height as u64) * (stride as u64);
    if (data_len as u64) < required {
        return Err(CompressError::InsufficientData { required, actual: data_len });
    }
    Ok(rgba_surface { width: width as i32, height: height as i32, stride: stride as i32 })
}

} // verus!
