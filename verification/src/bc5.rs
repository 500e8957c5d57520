//! BC5: 16 bytes to store each 4x4 block, 1 byte per texel.

use vstd::prelude::*;

use crate::blocks::{block_count, calc_size_u64, output_size};
use crate::ispc::kernel::rgba_surface;
use crate::surface::{hand_off, surface_hand_off, CompressError, RgSurface};

verus! {

/// Bytes of one compressed BC5 block.
pub open spec fn block_bytes() -> nat {
    16
}

/// Size in bytes of a `width` x `height` surface compressed to BC5: one block for every
/// 16 texels, a partial block rounded up.
pub fn calc_output_size(width: u32, height: u32) -> (size: usize)
    requires
        output_size(width as nat, height as nat, block_bytes()) <= usize::MAX,
    ensures
        size == output_size(width as nat, height as nat, block_bytes()),
{
    calc_size_u64(width, height, 16) as usize
}

/// Checks that `surface` and an output buffer of `blocks_len` bytes may be handed to the
/// BC5 kernel, and gives the kernel's surface record: the output must hold exactly
/// `calc_output_size` bytes, then the data at least `height * stride` bytes.
pub fn kernel_surface(surface: &RgSurface, blocks_len: usize) -> (r: Result<rgba_surface, CompressError>)
    ensures
        r == surface_hand_off(
            surface.data@.len(),
            surface.width,
            surface.height,
            surface.stride,
            blocks_len as nat,
            block_bytes(),
        ),
{
    hand_off(surface.data.len(), surface.width, surface.height, surface.stride, blocks_len, 16)
}

/// A BC5 surface takes twice the bytes of the same surface in BC1: the same blocks, each
/// twice as large.
pub proof fn lemma_twice_bc1_size(width: nat, height: nat)
    ensures
        output_size(width, height, block_bytes()) == 2 * output_size(width, height, crate::bc1::block_bytes()),
{
    assert(block_count(width, height) * 16 == 2 * (block_count(width, height) * 8)) by (nonlinear_arith);
}

/// On a surface that fills whole blocks the format takes one byte per texel.
pub proof fn lemma_data_rate(width: nat, height: nat)
    requires
        (width * height) % 16 == 0,
    ensures
        output_size(width, height, block_bytes()) == width * height,
{
    let n = width * height;
    assert(crate::blocks::block_count(width, height) == n / 16);
    assert((n / 16) * 16 == n) by (nonlinear_arith)
        requires
            n % 16 == 0,
    ;
}

} // verus!
