//! The 24-bit format-conversion kernel.
//!
//! PlayStation VRAM can hold a packed 24-bit-per-pixel byte stream: every
//! scanline is a fixed byte stride and three consecutive bytes encode one
//! RGB triple.  The kernel unpacks that stream into one opaque 32-bit word
//! per pixel, row-major, with row width `bytes_per_scanline / 3` (rounded
//! down).  Each invocation handles one output coordinate and is a
//! bounds-checked no-op outside the valid pixel grid, so a dispatch grid
//! that over-covers the buffer (as the 8x8 work-group grid does) is safe.

use vstd::prelude::*;

verus! {

use vstd::pervasive::VecAdditionalExecFns;

/// Number of whole RGB triples that fit in one scanline of `bpr` bytes.
pub open spec fn spec_pixels_per_scanline(bpr: nat) -> nat {
    bpr / 3
}

/// The word the kernel writes for the triple `(r, g, b)`: full alpha,
/// blue in bits 16..24, green in bits 8..16, red in bits 0..8.
pub open spec fn spec_pack_rgb(r: u8, g: u8, b: u8) -> u32 {
    0xFF00_0000u32 | ((b as u32) << 16) | ((g as u32) << 8) | (r as u32)
}

/// The word the kernel produces for output coordinate `(x, y)` of a packed
/// stream with `bpr` bytes per scanline.
pub open spec fn spec_unpacked_word(packed: Seq<u8>, bpr: nat, x: nat, y: nat) -> u32 {
    spec_pack_rgb(
        packed[(y * bpr + 3 * x) as int],
        packed[(y * bpr + 3 * x + 1) as int],
        packed[(y * bpr + 3 * x + 2) as int],
    )
}

/// The byte at position `k` of a word's little-endian spelling.
pub open spec fn spec_word_byte(w: u32, k: int) -> u8 {
    ((w >> (8 * k)) & 0xFF) as u8
}

/// Reads one byte out of a word-packed buffer, addressed the way the
/// kernel's storage buffer is: word `i >> 2`, byte `i & 3` within it.
pub fn read_packed_byte(words: &Vec<u32>, byte_index: usize) -> (r: u8)
    requires
        byte_index / 4 < words@.len(),
    ensures
        r == spec_word_byte(words@[byte_index as int / 4], (byte_index as int) % 4),
{
    let w = words[byte_index / 4];
    let sub = byte_index % 4;
    let b = match sub {
        0 => (w & 0xFF) as u8,
        1 => ((w >> 8) & 0xFF) as u8,
        2 => ((w >> 16) & 0xFF) as u8,
        _ => ((w >> 24) & 0xFF) as u8,
    };
    proof {
        assert(w & 0xFF < 256 && (w >> 8) & 0xFF < 256 && (w >> 16) & 0xFF < 256 && (w >> 24)
            & 0xFF < 256) by (bit_vector);
        assert((w >> (8 * 0)) == w && (w >> (8 * 1)) == (w >> 8) && (w >> (8 * 2)) == (w >> 16) && (
        w >> (8 * 3)) == (w >> 24)) by (bit_vector);
    }
    b
}

/// An invocation at `(x, y)` does work only inside the pixel grid and only
/// when its whole triple lies inside the scanline.
pub open spec fn spec_invocation_active(bpr: nat, scanlines: nat, x: nat, y: nat) -> bool {
    &&& x < spec_pixels_per_scanline(bpr)
    &&& y < scanlines
    &&& 3 * x + 2 < bpr
}

/// Executable pixel count for one scanline.
pub fn pixels_per_scanline(bpr: usize) -> (r: usize)
    ensures
        r == spec_pixels_per_scanline(bpr as nat),
{
    bpr / 3
}

/// Reassembles one RGB triple into an opaque output word.
pub fn pack_rgb(r: u8, g: u8, b: u8) -> (w: u32)
    ensures
        w == spec_pack_rgb(r, g, b),
{
    0xFF00_0000u32 | ((b as u32) << 16) | ((g as u32) << 8) | (r as u32)
}

/// A triple that starts at a valid pixel coordinate never crosses its
/// scanline: the straddle guard of the kernel can only fire for
/// coordinates the grid guard has already rejected.
pub proof fn lemma_triple_in_scanline(bpr: nat, x: nat)
    requires
        x < spec_pixels_per_scanline(bpr),
    ensures
        3 * x + 2 < bpr,
{
}

/// One kernel invocation: writes the unpacked word for `(x, y)` when the
/// coordinate is inside the pixel grid, and leaves the output untouched
/// otherwise.
pub fn unpack_invocation(
    packed: &Vec<u8>,
    out: &mut Vec<u32>,
    x: usize,
    y: usize,
    scanlines: usize,
    bpr: usize,
)
    requires
        packed@.len() == scanlines * bpr,
        old(out)@.len() == scanlines * spec_pixels_per_scanline(bpr as nat),
    ensures
        final(out)@.len() == old(out)@.len(),
        spec_invocation_active(bpr as nat, scanlines as nat, x as nat, y as nat)
            ==> final(out)@ =~= old(out)@.update(
            (y * spec_pixels_per_scanline(bpr as nat) + x) as int,
            spec_unpacked_word(packed@, bpr as nat, x as nat, y as nat),
        ),
        !spec_invocation_active(bpr as nat, scanlines as nat, x as nat, y as nat)
            ==> final(out)@ =~= old(out)@,
{
    let ppr = bpr / 3;
    if x >= ppr || y >= scanlines {
        return ;
    }
    let _total_bytes = packed.len();
    let _total_pixels = out.len();
    proof {
        lemma_triple_in_scanline(bpr as nat, x as nat);
        assert((y * bpr + 3 * x + 2) < scanlines * bpr) by (nonlinear_arith)
            requires
                y < scanlines,
                3 * x + 2 < bpr,
        ;
        assert(y * ppr + x < scanlines * ppr) by (nonlinear_arith)
            requires
                y < scanlines,
                x < ppr,
        ;
    }
    if 3 * x + 2 >= bpr {
        return ;
    }
    let base_byte = y * bpr + 3 * x;
    let word = pack_rgb(packed[base_byte], packed[base_byte + 1], packed[base_byte + 2]);
    let idx = y * ppr + x;
    out.set(idx, word);
}

/// Output index arithmetic: a pixel coordinate inside the grid lands in
/// its own row's slice of the row-major output buffer.
pub proof fn lemma_pixel_index(ppr: nat, scanlines: nat, x: nat, y: nat)
    requires
        x < ppr,
        y < scanlines,
    ensures
        y * ppr <= y * ppr + x < (y + 1) * ppr,
        (y + 1) * ppr <= scanlines * ppr,
        ((y * ppr + x) as int) % (ppr as int) == x,
        ((y * ppr + x) as int) / (ppr as int) == y,
{
    assert(y * ppr + x < (y + 1) * ppr && (y + 1) * ppr <= scanlines * ppr) by (nonlinear_arith)
        requires
            x < ppr,
            y < scanlines,
    ;
    assert(((y * ppr + x) as int) % (ppr as int) == x && ((y * ppr + x) as int) / (ppr as int) == y)
        by (nonlinear_arith)
        requires
            0 <= x < ppr,
            0 <= y,
    ;
}

/// Number of 8-wide work groups needed to cover `n` invocations.
pub fn dispatch_groups(n: usize) -> (r: usize)
    ensures
        r * 8 >= n,
        n > 0 ==> (r - 1) * 8 < n,
        n == 0 ==> r == 0,
{
    if n % 8 == 0 {
        n / 8
    } else {
        n / 8 + 1
    }
}

/// Runs the conversion kernel over the whole dispatch grid: one invocation
/// per coordinate of the `8x8`-work-group grid that covers the pixel
/// buffer, exactly as the compute dispatch issues them.  Afterwards every
/// output word holds the opaque RGBA reassembly of its triple; the grid's
/// over-covering invocations have provably touched nothing.
pub fn run_conversion(packed: &Vec<u8>, out: &mut Vec<u32>, scanlines: usize, bpr: usize)
    requires
        packed@.len() == scanlines * bpr,
        old(out)@.len() == scanlines * spec_pixels_per_scanline(bpr as nat),
    ensures
        final(out)@.len() == old(out)@.len(),
        forall|x: nat, y: nat|
            spec_invocation_active(bpr as nat, scanlines as nat, x, y) ==> final(out)@[y * (
            bpr as nat / 3) + x as int] == spec_unpacked_word(packed@, bpr as nat, x, y),
{
    let ppr = bpr / 3;
    if ppr == 0 || scanlines == 0 {
        return ;
    }
    let _total_bytes = packed.len();
    proof {
        assert(scanlines <= scanlines * bpr && scanlines * 3 <= scanlines * bpr)
            by (nonlinear_arith)
            requires
                bpr >= 3,
                scanlines >= 1,
        ;
    }
    let groups_x = dispatch_groups(ppr);
    let groups_y = dispatch_groups(scanlines);
    let nx = groups_x * 8;
    let ny = groups_y * 8;
    let mut y: usize = 0;
    while y < ny
        invariant
            packed@.len() == scanlines * bpr,
            out@.len() == scanlines * (bpr as nat / 3),
            ppr == bpr as nat / 3,
            nx >= ppr,
            forall|xx: nat, yy: nat|
                spec_invocation_active(bpr as nat, scanlines as nat, xx, yy) && yy < y
                    ==> out@[(yy * (bpr as nat / 3) + xx) as int] == spec_unpacked_word(
                    packed@,
                    bpr as nat,
                    xx,
                    yy,
                ),
            forall|i: int| y * (bpr as nat / 3) <= i < out@.len() ==> out@[i] == old(out)@[i],
        decreases ny - y,
    {
        let mut x: usize = 0;
        while x < nx
            invariant
                packed@.len() == scanlines * bpr,
                out@.len() == scanlines * (bpr as nat / 3),
                ppr == bpr as nat / 3,
                x <= nx,
                y < ny,
                forall|xx: nat, yy: nat|
                    spec_invocation_active(bpr as nat, scanlines as nat, xx, yy) && (yy < y || (yy
                        == y && xx < x)) ==> out@[(yy * (bpr as nat / 3) + xx) as int]
                        == spec_unpacked_word(packed@, bpr as nat, xx, yy),
                forall|i: int|
                    y * (bpr as nat / 3) + (if x <= ppr {
                        x as int
                    } else {
                        ppr as int
                    }) <= i < out@.len() ==> out@[i] == old(out)@[i],
            decreases nx - x,
        {
            let ghost prev = out@;
            unpack_invocation(packed, out, x, y, scanlines, bpr);
            proof {
                if spec_invocation_active(bpr as nat, scanlines as nat, x as nat, y as nat) {
                    lemma_pixel_index(ppr as nat, scanlines as nat, x as nat, y as nat);
                }
                assert forall|xx: nat, yy: nat|
                    spec_invocation_active(bpr as nat, scanlines as nat, xx, yy) && (yy < y || (yy
                        == y && xx < x + 1)) implies out@[(yy * (bpr as nat / 3) + xx) as int]
                    == spec_unpacked_word(packed@, bpr as nat, xx, yy) by {
                    lemma_pixel_index(ppr as nat, scanlines as nat, xx, yy);
                }
            }
            x = x + 1;
        }
        proof {
            assert forall|i: int| (y + 1) * (bpr as nat / 3) <= i < out@.len() implies out@[i]
                == old(out)@[i] by {
                assert((y + 1) * (bpr as nat / 3) == y * (bpr as nat / 3) + (bpr as nat / 3))
                    by (nonlinear_arith);
            }
        }
        y = y + 1;
    }
}

} // verus!
