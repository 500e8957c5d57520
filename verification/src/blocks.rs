//! The 4x4 block grid shared by every block-compressed format.

use vstd::prelude::*;

verus! {

/// Number of texels in one 4x4 block.
pub open spec fn texels_per_block() -> nat {
    16
}

/// `n / d` rounded up.
pub open spec fn div_ceil(n: nat, d: nat) -> nat
    recommends
        d > 0,
{
    if n % d == 0 { n / d } else { n / d + 1 }
}

/// Number of blocks that cover a `width` x `height` surface: the texel count divided by the
/// texels of one block, rounded up.
pub open spec fn block_count(width: nat, height: nat) -> nat {
    div_ceil(width * height, texels_per_block())
}

/// Size in bytes of the compressed surface when each block takes `block_bytes` bytes.
pub open spec fn output_size(width: nat, height: nat, block_bytes: nat) -> nat {
    block_count(width, height) * block_bytes
}

/// A surface with no rows or no columns compresses to nothing.
pub proof fn lemma_empty_surface_has_no_blocks(width: nat, height: nat, block_bytes: nat)
    requires
        width == 0 || height == 0,
    ensures
        block_count(width, height) == 0,
        output_size(width, height, block_bytes) == 0,
{
    assert(width * height == 0) by (nonlinear_arith)
        requires
            width == 0 || height == 0,
    ;
}

/// The blocks cover every texel, and one block fewer would not: a partial block is
/// rounded up, never more.
pub proof fn lemma_blocks_cover_surface(width: nat, height: nat)
    ensures
        width * height <= block_count(width, height) * texels_per_block(),
        block_count(width, height) * texels_per_block() < width * height + texels_per_block(),
{
    let n = width * height;
    assert(n == 16 * (n / 16) + n % 16) by (nonlinear_arith);
}

/// When both sides are multiples of 4, the surface is exactly `width / 4` by `height / 4`
/// blocks.
pub proof fn lemma_aligned_surface_blocks(width: nat, height: nat, block_bytes: nat)
    requires
        width % 4 == 0,
        height % 4 == 0,
    ensures
        block_count(width, height) == (width / 4) * (height / 4),
        output_size(width, height, block_bytes) == (width / 4) * (height / 4) * block_bytes,
{
    let a = width / 4;
    let b = height / 4;
    assert(width * height == 16 * (a * b)) by (nonlinear_arith)
        requires
            width == 4 * a,
            height == 4 * b,
    ;
    assert((16 * (a * b)) % 16 == 0 && (16 * (a * b)) / 16 == a * b) by (nonlinear_arith);
}

/// Cutting a surface into two horizontal strips, the first of which fills whole blocks,
/// splits its compressed size into the sizes of the two strips.
pub proof fn lemma_strip_sizes_add(width: nat, top: nat, bottom: nat, block_bytes: nat)
    requires
        (width * top) % 16 == 0,
    ensures
        block_count(width, top + bottom) == block_count(width, top) + block_count(width, bottom),
        output_size(width, top + bottom, block_bytes) == output_size(width, top, block_bytes)
            + output_size(width, bottom, block_bytes),
{
    let t = width * top;
    let u = width * bottom;
    assert(width * (top + bottom) == t + u) by (nonlinear_arith)
        requires
            t == width * top,
            u == width * bottom,
    ;
    let q = t / 16;
    assert(t == 16 * q) by (nonlinear_arith)
        requires
            t % 16 == 0,
            q == t / 16,
    ;
    assert((t + u) / 16 == q + u / 16 && (t + u) % 16 == u % 16) by (nonlinear_arith)
        requires
            t == 16 * q,
    ;
    assert((block_count(width, top) + block_count(width, bottom)) * block_bytes
        == block_count(width, top) * block_bytes + block_count(width, bottom) * block_bytes)
        by (nonlinear_arith);
}

/// With 64-bit sizes no surface of `u32` dimensions overflows: its compressed size, in
/// blocks of at most 16 bytes, fits in a `u64`.
pub proof fn lemma_output_size_fits_64_bits(width: u32, height: u32, block_bytes: nat)
    requires
        block_bytes <= 16,
    ensures
        output_size(width as nat, height as nat, block_bytes) <= u64::MAX,
{
    let n = width as nat * height as nat;
    assert(n <= 0xffff_fffe_0000_0001) by (nonlinear_arith)
        requires
            width <= 0xffff_ffff,
            height <= 0xffff_ffff,
            n == width as nat * height as nat,
    ;
    let c = block_count(width as nat, height as nat);
    assert(c <= 0xffff_fffe_0000_001) by {
        lemma_blocks_cover_surface(width as nat, height as nat);
    }
    assert(c * block_bytes <= c * 16) by (nonlinear_arith)
        requires
            block_bytes <= 16,
    ;
}

/// Computes the number of 4x4 blocks that cover a `width` x `height` surface.
///
/// The count is formed in 64 bits, where it always fits: at most `(2^32 - 1)^2 / 16`
/// rounded up.
pub fn calc_block_count(width: u32, height: u32) -> (count: u64)
    ensures
        count == block_count(width as nat, height as nat),
        count * 16 <= 0xffff_fffe_0000_0010,
{
    assert(width * height <= 0xffff_fffe_0000_0001) by (nonlinear_arith)
        requires
            width <= 0xffff_ffff,
            height <= 0xffff_ffff,
    ;
    let texels: u64 = (width as u64) * (height as u64);
    let rounded_up: u64 = if texels % 16 == 0 { 0 } else { 1 };
    texels / 16 + rounded_up
}

/// Computes the size in bytes of a `width` x `height` surface compressed into blocks of
/// `block_bytes` bytes, for block sizes of at most 16 bytes.
pub fn calc_size_u64(width: u32, height: u32, block_bytes: u64) -> (size: u64)
    requires
        block_bytes <= 16,
    ensures
        size == output_size(width as nat, height as nat, block_bytes as nat),
{
    let count = calc_block_count(width, height);
    assert(count * block_bytes <= count * 16) by (nonlinear_arith)
        requires
            block_bytes <= 16,
    ;
    count * block_bytes
}

} // verus!
