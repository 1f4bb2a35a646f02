//! The blit-region descriptor and its texel arithmetic.
//!
//! A region selects, in source-texel space, the visible sub-rectangle
//! (`topleft` + `size`) of a texture whose full addressable size is
//! `extent`.  The renderer turns a destination pixel's normalized
//! coordinate into a source coordinate by `tex * (size/extent) +
//! (topleft/extent)` and samples nearest-neighbour under a wrapping
//! address mode; with the extent equal to the source texture's size that
//! is exactly the integer arithmetic below.

use vstd::prelude::*;

verus! {

#[derive(Clone, Copy, Debug, PartialEq, Eq, Structural)]
pub struct BlitRegion {
    pub left: u32,
    pub top: u32,
    pub width: u32,
    pub height: u32,
    pub extent_w: u32,
    pub extent_h: u32,
}

impl BlitRegion {
    /// The caller-side invariant: the sub-rectangle lies inside the
    /// addressable extent.  The renderer itself does not require it;
    /// out-of-range values wrap instead of clamping.
    pub open spec fn in_extent(self) -> bool {
        &&& self.left + self.width <= self.extent_w
        &&& self.top + self.height <= self.extent_h
    }

    pub open spec fn nonempty(self) -> bool {
        &&& self.width >= 1
        &&& self.height >= 1
        &&& self.extent_w >= 1
        &&& self.extent_h >= 1
    }
}

/// The region exposing the whole addressable texture, used when the
/// display is toggled from the core's visible window to the full VRAM.
pub fn full_vram_region(extent_w: u32, extent_h: u32) -> (r: BlitRegion)
    ensures
        r == (BlitRegion {
            left: 0,
            top: 0,
            width: extent_w,
            height: extent_h,
            extent_w,
            extent_h,
        }),
        r.in_extent(),
{
    BlitRegion { left: 0, top: 0, width: extent_w, height: extent_h, extent_w, extent_h }
}

/// Numerator of the normalized coordinate a corner of the quad maps to:
/// corner `c` (0 or 1) lands on `(topleft + c*size) / extent`.
pub open spec fn spec_corner_numerator(topleft: nat, size: nat, c: nat) -> nat {
    topleft + c * size
}

/// The source texel column (or row) sampled for destination pixel `i` of
/// `dest` pixels, before wrapping: the pixel's centre, mapped through the
/// region, lands in texel `topleft + (2i+1)*size / (2*dest)`.
pub open spec fn spec_sample_unwrapped(topleft: nat, size: nat, dest: nat, i: nat) -> nat
    recommends
        dest > 0,
{
    topleft + ((2 * i + 1) * size) / (2 * dest)
}

/// The texel actually read: wrapping address mode reduces the coordinate
/// modulo the texture extent.
pub open spec fn spec_sample_texel(topleft: nat, size: nat, dest: nat, extent: nat, i: nat) -> nat
    recommends
        dest > 0,
        extent > 0,
{
    spec_sample_unwrapped(topleft, size, dest, i) % extent
}

/// Every destination pixel samples inside the selected window: the
/// sub-rectangle `[topleft, topleft + size)` is exactly what is visible.
pub proof fn lemma_sample_in_window(topleft: nat, size: nat, dest: nat, i: nat)
    requires
        size >= 1,
        dest > 0,
        i < dest,
    ensures
        topleft <= spec_sample_unwrapped(topleft, size, dest, i),
        spec_sample_unwrapped(topleft, size, dest, i) < topleft + size,
{
    assert(((2 * i + 1) * size) / (2 * dest) < size) by (nonlinear_arith)
        requires
            size >= 1,
            dest > 0,
            i < dest,
    ;
}

/// A window that lies inside the extent never wraps: the modulo of the
/// wrapping address mode is the identity there.
pub proof fn lemma_no_wrap_inside_extent(topleft: nat, size: nat, dest: nat, extent: nat, i: nat)
    requires
        size >= 1,
        dest > 0,
        i < dest,
        topleft + size <= extent,
    ensures
        spec_sample_texel(topleft, size, dest, extent, i) == spec_sample_unwrapped(
            topleft,
            size,
            dest,
            i,
        ),
{
    lemma_sample_in_window(topleft, size, dest, i);
    vstd::arithmetic::div_mod::lemma_small_mod(spec_sample_unwrapped(topleft, size, dest, i), extent);
}

/// Selecting the whole extent maps destination pixels one-to-one onto
/// source texels: with `topleft = 0` and `size = extent = dest`, pixel `i`
/// samples texel `i`, so the rendered coordinates span the full texture.
pub proof fn lemma_full_extent_identity(extent: nat, i: nat)
    requires
        extent > 0,
        i < extent,
    ensures
        spec_sample_texel(0, extent, extent, extent, i) == i,
{
    assert(((2 * i + 1) * extent) / (2 * extent) == i) by (nonlinear_arith)
        requires
            extent > 0,
            i < extent,
    ;
    vstd::arithmetic::div_mod::lemma_small_mod(i, extent);
}

/// The normalized corner coordinates of the full-extent region are exactly
/// 0 and 1: `topleft/extent = 0` and `(topleft + size)/extent = 1`.
pub proof fn lemma_full_extent_corners(extent: nat)
    requires
        extent > 0,
    ensures
        spec_corner_numerator(0, extent, 0) == 0,
        spec_corner_numerator(0, extent, 1) == extent,
{
}

/// Executable sampling arithmetic, used by the software renderer.
pub fn sample_texel(topleft: u32, size: u32, dest: u32, extent: u32, i: u32) -> (r: u32)
    requires
        dest > 0,
        extent > 0,
        i < dest,
    ensures
        r == spec_sample_texel(topleft as nat, size as nat, dest as nat, extent as nat, i as nat),
        r < extent,
{
    proof {
        assert((2 * (i as nat) + 1) * (size as nat) <= (2 * 0xffff_ffffnat + 1) * 0xffff_ffffnat)
            by (nonlinear_arith)
            requires
                i as nat <= 0xffff_ffffnat,
                size as nat <= 0xffff_ffffnat,
        ;
        assert(((2 * (i as nat) + 1) * (size as nat)) / (2 * (dest as nat)) < (size as nat) || size
            == 0) by (nonlinear_arith)
            requires
                dest > 0,
                i < dest,
        ;
    }
    let num = (2 * (i as u128) + 1) * (size as u128);
    let offset = num / (2 * (dest as u128));
    let unwrapped = (topleft as u128) + offset;
    let wrapped = unwrapped % (extent as u128);
    proof {
        vstd::arithmetic::div_mod::lemma_mod_bound(unwrapped as int, extent as int);
    }
    wrapped as u32
}

} // verus!
