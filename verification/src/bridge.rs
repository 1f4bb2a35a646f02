//! The source-texture bridge and blit renderer, modelled over plain pixel
//! buffers.
//!
//! `FrontBlit` owns the persistent resources of the PlayStation blit path:
//! the packed input buffer, the unpacked output buffer and the 24-bit
//! staging image.  `prepare_source` resolves a frame source into a
//! sampleable image — a zero-copy passthrough for 16-bit frames, the
//! buffer → conversion-kernel → image round trip for 24-bit frames — and
//! `blit` samples the resolved image into a destination image through a
//! blit region, swapping the R and B channels as the renderer's component
//! mapping does.

use vstd::prelude::*;

verus! {

use crate::image::PixelImage;
use crate::region::BlitRegion;
use crate::region::spec_sample_texel;
use crate::region::sample_texel;
use crate::unpack::spec_invocation_active;
use crate::unpack::spec_pixels_per_scanline;
use crate::unpack::spec_unpacked_word;
use crate::unpack::spec_pack_rgb;
use crate::unpack::run_conversion;
use crate::unpack::lemma_pixel_index;
use crate::unpack::dispatch_groups;

/// PlayStation VRAM geometry: 1024 16-bit words per scanline, 512
/// scanlines, so 2048 bytes per scanline and 682 whole 24-bit pixels.
pub const VRAM_SCANLINES: usize = 512;

pub const VRAM_BYTES_PER_SCANLINE: usize = 2048;

/// One frame handed over by the emulation core: either an image that can
/// be sampled directly (16-bit mode) or the packed 24-bit byte stream
/// that still needs conversion.
pub enum FrameSource {
    Direct(PixelImage),
    Packed24(Vec<u8>),
}

/// The colour word after the renderer's component mapping: R and B
/// swapped, G and A kept.
pub open spec fn spec_swap_rb(w: u32) -> u32 {
    (w & 0xFF00_FF00u32) | ((w & 0xFFu32) << 16) | ((w >> 16) & 0xFFu32)
}

pub fn swap_rb(w: u32) -> (r: u32)
    ensures
        r == spec_swap_rb(w),
{
    (w & 0xFF00_FF00u32) | ((w & 0xFFu32) << 16) | ((w >> 16) & 0xFFu32)
}

/// The deliberate R/B swap of the sampler cancels the kernel's BGR
/// packing: a packed triple, unpacked and then sampled through the
/// swapped view, comes out in the original (R, G, B) ordering.
pub proof fn lemma_swap_cancels_packing(r: u8, g: u8, b: u8)
    ensures
        spec_swap_rb(spec_pack_rgb(r, g, b)) == 0xFF00_0000u32 | ((r as u32) << 16) | (
        (g as u32) << 8) | (b as u32),
{
    assert(spec_swap_rb(spec_pack_rgb(r, g, b)) == 0xFF00_0000u32 | ((r as u32) << 16) | (
    (g as u32) << 8) | (b as u32)) by (bit_vector);
}

/// Round trip of a single packed triple: one scanline of three bytes is
/// one whole pixel with no truncated tail, and unpacking it and then
/// sampling through the swapped view yields the original logical
/// (R, G, B) input.
pub proof fn lemma_single_triple_round_trip(r: u8, g: u8, b: u8)
    ensures
        spec_swap_rb(spec_unpacked_word(seq![r, g, b], 3, 0, 0)) == 0xFF00_0000u32 | (
        (r as u32) << 16) | ((g as u32) << 8) | (b as u32),
{
    let packed = seq![r, g, b];
    assert(packed[0] == r && packed[1] == g && packed[2] == b);
    lemma_swap_cancels_packing(r, g, b);
}

/// The whole 24-bit path for a single-triple frame, at the level of the
/// blit model: staging the packed bytes and drawing the one-pixel quad
/// over the full extent displays exactly the original (R, G, B) colour.
pub proof fn lemma_single_triple_blit(r: u8, g: u8, b: u8)
    ensures
        ({
            let staged = seq![spec_unpacked_word(seq![r, g, b], 3, 0, 0)];
            let region = BlitRegion {
                left: 0,
                top: 0,
                width: 1,
                height: 1,
                extent_w: 1,
                extent_h: 1,
            };
            FrontBlit::spec_blit_pixel(staged, 1, region, 1, 1, 0, 0) == 0xFF00_0000u32 | (
            (r as u32) << 16) | ((g as u32) << 8) | (b as u32)
        }),
{
    crate::region::lemma_full_extent_identity(1, 0);
    lemma_single_triple_round_trip(r, g, b);
}

pub struct FrontBlit {
    pub scanlines: usize,
    pub bytes_per_scanline: usize,
    pub packed_in: Vec<u8>,
    pub unpacked_out: Vec<u32>,
    pub staging: PixelImage,
}

impl FrontBlit {
    pub open spec fn ppr(self) -> nat {
        spec_pixels_per_scanline(self.bytes_per_scanline as nat)
    }

    /// Persistent-resource invariant: both staging buffers and the staging
    /// image are sized for the configured scanline geometry, once, at
    /// construction.
    pub open spec fn wf(self) -> bool {
        &&& self.packed_in@.len() == self.scanlines * self.bytes_per_scanline
        &&& self.unpacked_out@.len() == self.scanlines * self.ppr()
        &&& self.staging.wf()
        &&& self.staging.width == self.ppr()
        &&& self.staging.height == self.scanlines
    }

    /// A frame source fits this bridge when its geometry matches the
    /// buffers allocated at construction.
    pub open spec fn accepts(self, src: FrameSource) -> bool {
        match src {
            FrameSource::Direct(img) => img.wf(),
            FrameSource::Packed24(bytes) => bytes@.len() == self.scanlines
                * self.bytes_per_scanline,
        }
    }

    /// The pixel content that sampling will see after `prepare_source`:
    /// the direct image itself, or the staging image.
    pub open spec fn spec_resolved_pixels(self, src: FrameSource) -> Seq<u32> {
        match src {
            FrameSource::Direct(img) => img.pixels@,
            FrameSource::Packed24(_) => self.staging.pixels@,
        }
    }

    pub open spec fn spec_resolved_width(self, src: FrameSource) -> nat {
        match src {
            FrameSource::Direct(img) => img.width as nat,
            FrameSource::Packed24(_) => self.ppr(),
        }
    }

    pub open spec fn spec_resolved_height(self, src: FrameSource) -> nat {
        match src {
            FrameSource::Direct(img) => img.height as nat,
            FrameSource::Packed24(_) => self.scanlines as nat,
        }
    }

    /// Allocates the bridge's persistent resources for the given
    /// geometry.  Any allocation failure here would be fatal to the
    /// session; nothing is allocated per frame.
    pub fn new(scanlines: usize, bytes_per_scanline: usize) -> (r: FrontBlit)
        requires
            scanlines * bytes_per_scanline <= usize::MAX,
        ensures
            r.wf(),
            r.scanlines == scanlines,
            r.bytes_per_scanline == bytes_per_scanline,
    {
        proof {
            assert(scanlines * (bytes_per_scanline as nat / 3) <= scanlines * bytes_per_scanline
                && (bytes_per_scanline as nat / 3) * scanlines == scanlines * (
            bytes_per_scanline as nat / 3)) by (nonlinear_arith);
            assert(scanlines * bytes_per_scanline >= 0) by (nonlinear_arith);
        }
        let ppr = bytes_per_scanline / 3;
        let byte_count = scanlines * bytes_per_scanline;
        let mut packed_in: Vec<u8> = Vec::new();
        let mut k: usize = 0;
        while k < byte_count
            invariant
                packed_in@.len() == k,
                k <= byte_count,
            decreases byte_count - k,
        {
            packed_in.push(0);
            k = k + 1;
        }
        let mut unpacked_out: Vec<u32> = Vec::new();
        let pixel_count = mul_for_size(scanlines, ppr, byte_count);
        let mut j: usize = 0;
        while j < pixel_count
            invariant
                unpacked_out@.len() == j,
                j <= pixel_count,
            decreases pixel_count - j,
        {
            unpacked_out.push(0);
            j = j + 1;
        }
        let staging = PixelImage::new(ppr, scanlines, 0);
        FrontBlit { scanlines, bytes_per_scanline, packed_in, unpacked_out, staging }
    }

    /// Resolves a frame source into the image that the renderer samples.
    ///
    /// A 16-bit frame is a pure passthrough: the bridge's state is left
    /// bit-for-bit unchanged.  A 24-bit frame is staged: its bytes are
    /// copied into the packed input buffer, the conversion kernel is
    /// dispatched, and the unpacked words are copied into the staging
    /// image, whose every pixel then holds the reassembled triple at its
    /// coordinate.
    pub fn prepare_source(&mut self, src: &FrameSource)
        requires
            old(self).wf(),
            old(self).accepts(*src),
        ensures
            final(self).wf(),
            final(self).scanlines == old(self).scanlines,
            final(self).bytes_per_scanline == old(self).bytes_per_scanline,
            (*src) is Direct ==> *final(self) == *old(self),
            (*src) matches FrameSource::Packed24(bytes) ==> {
                &&& final(self).packed_in@ == bytes@
                &&& final(self).staging.pixels@.len() == old(self).staging.pixels@.len()
                &&& forall|x: nat, y: nat|
                    spec_invocation_active(
                        old(self).bytes_per_scanline as nat,
                        old(self).scanlines as nat,
                        x,
                        y,
                    ) ==> final(self).staging.pixels@[y * old(self).ppr() + x as int]
                        == spec_unpacked_word(bytes@, old(self).bytes_per_scanline as nat, x, y)
            },
    {
        match src {
            FrameSource::Direct(_) => {},
            FrameSource::Packed24(bytes) => {
                self.packed_in = copy_bytes(bytes);
                run_conversion(
                    &self.packed_in,
                    &mut self.unpacked_out,
                    self.scanlines,
                    self.bytes_per_scanline,
                );
                let staging = PixelImage {
                    width: self.staging.width,
                    height: self.staging.height,
                    pixels: copy_words(&self.unpacked_out),
                };
                self.staging = staging;
                proof {
                    assert(self.staging.pixels@.len() == self.scanlines * self.ppr());
                    assert((self.staging.width as nat) * (self.staging.height as nat) == (
                    self.staging.height as nat) * (self.staging.width as nat))
                        by (nonlinear_arith);
                    assert(self.staging.wf());
                }
            },
        }
    }

    /// The word a blit writes at destination pixel `(i, j)`: the resolved
    /// source image, sampled nearest-neighbour through the region's
    /// sub-rectangle with wrapping, with R and B swapped.
    pub open spec fn spec_blit_pixel(
        resolved: Seq<u32>,
        resolved_width: nat,
        region: BlitRegion,
        dest_w: nat,
        dest_h: nat,
        i: nat,
        j: nat,
    ) -> u32 {
        spec_swap_rb(
            resolved[(spec_sample_texel(
                region.top as nat,
                region.height as nat,
                dest_h,
                region.extent_h as nat,
                j,
            ) * resolved_width + spec_sample_texel(
                region.left as nat,
                region.width as nat,
                dest_w,
                region.extent_w as nat,
                i,
            )) as int],
        )
    }

    /// Draws the full-screen quad: resolves the source via
    /// `prepare_source`, then fills every destination pixel with the
    /// swapped sample selected by the region.  Destination contents
    /// before the draw are not preserved (the render pass loads
    /// don't-care).
    pub fn blit(&mut self, src: &FrameSource, region: BlitRegion, dest_w: usize, dest_h: usize) -> (dest: PixelImage)
        requires
            old(self).wf(),
            old(self).accepts(*src),
            1 <= dest_w <= 0xffff_ffffusize,
            1 <= dest_h <= 0xffff_ffffusize,
            dest_w * dest_h <= usize::MAX,
            region.extent_w as nat == old(self).spec_resolved_width(*src),
            region.extent_h as nat == old(self).spec_resolved_height(*src),
            region.extent_w >= 1,
            region.extent_h >= 1,
        ensures
            final(self).wf(),
            final(self).scanlines == old(self).scanlines,
            final(self).bytes_per_scanline == old(self).bytes_per_scanline,
            (*src) is Direct ==> *final(self) == *old(self),
            (*src) matches FrameSource::Packed24(bytes) ==> forall|x: nat, y: nat|
                spec_invocation_active(
                    old(self).bytes_per_scanline as nat,
                    old(self).scanlines as nat,
                    x,
                    y,
                ) ==> final(self).staging.pixels@[y * old(self).ppr() + x as int]
                    == spec_unpacked_word(bytes@, old(self).bytes_per_scanline as nat, x, y),
            dest.wf(),
            dest.width == dest_w,
            dest.height == dest_h,
            forall|i: nat, j: nat|
                i < dest_w && j < dest_h ==> dest.spec_pixel(i as int, j as int)
                    == FrontBlit::spec_blit_pixel(
                    final(self).spec_resolved_pixels(*src),
                    final(self).spec_resolved_width(*src),
                    region,
                    dest_w as nat,
                    dest_h as nat,
                    i,
                    j,
                ),
    {
        self.prepare_source(src);
        let ghost staged = *self;
        let resolved: &PixelImage = match src {
            FrameSource::Direct(img) => img,
            FrameSource::Packed24(_) => &self.staging,
        };
        let ghost resolved_pixels = self.spec_resolved_pixels(*src);
        let ghost resolved_width = self.spec_resolved_width(*src);
        proof {
            assert(resolved.wf());
            assert(resolved.pixels@ == resolved_pixels);
            assert(resolved.width as nat == resolved_width);
        }
        let mut dest = PixelImage::new(dest_w, dest_h, 0);
        let mut j: usize = 0;
        while j < dest_h
            invariant
                *self == staged,
                self.wf(),
                resolved.wf(),
                resolved.pixels@ == resolved_pixels,
                resolved.width as nat == resolved_width,
                resolved.width == region.extent_w,
                resolved.height == region.extent_h,
                region.extent_w >= 1,
                region.extent_h >= 1,
                1 <= dest_w <= 0xffff_ffffusize,
                1 <= dest_h <= 0xffff_ffffusize,
                dest.wf(),
                dest.width == dest_w,
                dest.height == dest_h,
                forall|ii: nat, jj: nat|
                    ii < dest_w && jj < j ==> dest.spec_pixel(ii as int, jj as int)
                        == FrontBlit::spec_blit_pixel(
                        resolved_pixels,
                        resolved_width,
                        region,
                        dest_w as nat,
                        dest_h as nat,
                        ii,
                        jj,
                    ),
            decreases dest_h - j,
        {
            let ty = sample_texel(
                region.top,
                region.height,
                dest_h as u32,
                region.extent_h,
                j as u32,
            );
            let mut i: usize = 0;
            while i < dest_w
                invariant
                    *self == staged,
                    self.wf(),
                    resolved.wf(),
                    resolved.pixels@ == resolved_pixels,
                    resolved.width as nat == resolved_width,
                    resolved.width == region.extent_w,
                    resolved.height == region.extent_h,
                    region.extent_w >= 1,
                    region.extent_h >= 1,
                    1 <= dest_w <= 0xffff_ffffusize,
                    1 <= dest_h <= 0xffff_ffffusize,
                    j < dest_h,
                    ty == spec_sample_texel(
                        region.top as nat,
                        region.height as nat,
                        dest_h as nat,
                        region.extent_h as nat,
                        j as nat,
                    ),
                    ty < region.extent_h,
                    dest.wf(),
                    dest.width == dest_w,
                    dest.height == dest_h,
                    forall|ii: nat, jj: nat|
                        (jj < j || (jj == j && ii < i)) && ii < dest_w && jj < dest_h
                            ==> dest.spec_pixel(ii as int, jj as int) == FrontBlit::spec_blit_pixel(
                            resolved_pixels,
                            resolved_width,
                            region,
                            dest_w as nat,
                            dest_h as nat,
                            ii,
                            jj,
                        ),
                decreases dest_w - i,
            {
                let tx = sample_texel(
                    region.left,
                    region.width,
                    dest_w as u32,
                    region.extent_w,
                    i as u32,
                );
                let sampled = resolved.pixel(tx as usize, ty as usize);
                proof {
                    lemma_pixel_index(
                        resolved.width as nat,
                        resolved.height as nat,
                        tx as nat,
                        ty as nat,
                    );
                }
                dest.set_pixel(i, j, swap_rb(sampled));
                i = i + 1;
            }
            j = j + 1;
        }
        dest
    }
}

/// A passthrough frame leaves the bridge bit-for-bit unchanged, so
/// preparing the same 16-bit frame twice in a row yields identical
/// sampled content both times: there is no hidden state.
pub proof fn lemma_direct_prepare_idempotent(
    s0: FrontBlit,
    s1: FrontBlit,
    s2: FrontBlit,
    img: PixelImage,
)
    requires
        s1 == s0,
        s2 == s1,
    ensures
        s2 == s0,
        s1.spec_resolved_pixels(FrameSource::Direct(img)) == s2.spec_resolved_pixels(
            FrameSource::Direct(img),
        ),
        s1.spec_resolved_pixels(FrameSource::Direct(img)) == img.pixels@,
{
}

/// One command of the recorded blit sequence.  Per-frame transients (the
/// sampler view, the descriptor set, the framebuffer) are created for the
/// recording and released with it; the commands reference only the
/// bridge's persistent resources.
#[derive(Clone, Copy, Debug, PartialEq, Eq, Structural)]
pub enum GpuCommand {
    CopyImageToBuffer,
    BindComputePipeline,
    BindComputeDescriptorSet,
    Dispatch(usize, usize),
    CopyBufferToImage,
    BeginRenderPass,
    SetViewport(u32, u32),
    BindGraphicsPipeline,
    BindGraphicsDescriptorSet,
    PushConstants(BlitRegion),
    BindVertexBuffer,
    Draw(u32, u32),
    EndRenderPass,
}

/// Work groups needed to cover `n` invocations with groups of 8.
pub open spec fn spec_groups(n: nat) -> nat {
    (n + 7) / 8
}

/// The draw part of every recorded frame: one render pass over the
/// destination's full extent, one descriptor bind, the region as push
/// constants, and a 4-vertex triangle-strip draw of a single instance.
pub open spec fn spec_render_pass_commands(region: BlitRegion, dest_w: u32, dest_h: u32) -> Seq<
    GpuCommand,
> {
    seq![
        GpuCommand::BeginRenderPass,
        GpuCommand::SetViewport(dest_w, dest_h),
        GpuCommand::BindGraphicsPipeline,
        GpuCommand::BindGraphicsDescriptorSet,
        GpuCommand::PushConstants(region),
        GpuCommand::BindVertexBuffer,
        GpuCommand::Draw(4, 1),
        GpuCommand::EndRenderPass,
    ]
}

/// The staging prefix recorded only for 24-bit frames: copy the VRAM
/// image into the packed buffer, dispatch the conversion kernel over the
/// covering work-group grid, copy the unpacked words into the staging
/// image.
pub open spec fn spec_convert_commands(ppr: nat, scanlines: nat) -> Seq<GpuCommand> {
    seq![
        GpuCommand::CopyImageToBuffer,
        GpuCommand::BindComputePipeline,
        GpuCommand::BindComputeDescriptorSet,
        GpuCommand::Dispatch(spec_groups(ppr) as usize, spec_groups(scanlines) as usize),
        GpuCommand::CopyBufferToImage,
    ]
}

impl FrontBlit {
    /// Records one frame's command sequence.  All three staging steps and
    /// the draw stand in the same command stream, so their ordering
    /// relative to the draw needs no separate synchronization; the
    /// sequence is returned exactly, staging prefix first when the frame
    /// is 24-bit.
    pub fn record_blit_commands(
        &self,
        is_24bit: bool,
        region: BlitRegion,
        dest_w: u32,
        dest_h: u32,
    ) -> (r: Vec<GpuCommand>)
        requires
            self.wf(),
        ensures
            is_24bit ==> r@ =~= spec_convert_commands(self.ppr(), self.scanlines as nat)
                + spec_render_pass_commands(region, dest_w, dest_h),
            !is_24bit ==> r@ =~= spec_render_pass_commands(region, dest_w, dest_h),
            is_24bit ==> (r@[3] matches GpuCommand::Dispatch(gx, gy) && gx * 8 >= self.ppr() && gy
                * 8 >= self.scanlines),
    {
        let mut r: Vec<GpuCommand> = Vec::new();
        if is_24bit {
            let ppr = self.bytes_per_scanline / 3;
            let groups_x = dispatch_groups(ppr);
            let groups_y = dispatch_groups(self.scanlines);
            r.push(GpuCommand::CopyImageToBuffer);
            r.push(GpuCommand::BindComputePipeline);
            r.push(GpuCommand::BindComputeDescriptorSet);
            r.push(GpuCommand::Dispatch(groups_x, groups_y));
            r.push(GpuCommand::CopyBufferToImage);
        }
        r.push(GpuCommand::BeginRenderPass);
        r.push(GpuCommand::SetViewport(dest_w, dest_h));
        r.push(GpuCommand::BindGraphicsPipeline);
        r.push(GpuCommand::BindGraphicsDescriptorSet);
        r.push(GpuCommand::PushConstants(region));
        r.push(GpuCommand::BindVertexBuffer);
        r.push(GpuCommand::Draw(4, 1));
        r.push(GpuCommand::EndRenderPass);
        r
    }
}

/// The fixed quad geometry: a unit square over normalized device
/// coordinates, strip-ordered bottom-left, top-left, bottom-right,
/// top-right, so four vertices draw the two triangles.
pub fn quad_vertices() -> (r: Vec<(i8, i8)>)
    ensures
        r@ =~= seq![(-1i8, -1i8), (-1i8, 1i8), (1i8, -1i8), (1i8, 1i8)],
{
    let mut r: Vec<(i8, i8)> = Vec::new();
    r.push((-1, -1));
    r.push((-1, 1));
    r.push((1, -1));
    r.push((1, 1));
    r
}

/// Copies one byte buffer, as the GPU's image-to-buffer copy does.
fn copy_bytes(src: &Vec<u8>) -> (r: Vec<u8>)
    ensures
        r@ == src@,
{
    let mut r: Vec<u8> = Vec::new();
    let n = src.len();
    let mut i: usize = 0;
    while i < n
        invariant
            n == src@.len(),
            i <= n,
            r@ =~= src@.subrange(0, i as int),
        decreases n - i,
    {
        r.push(src[i]);
        i = i + 1;
    }
    proof {
        assert(r@ =~= src@);
    }
    r
}

/// Copies one word buffer, as the GPU's buffer-to-image copy does.
fn copy_words(src: &Vec<u32>) -> (r: Vec<u32>)
    ensures
        r@ == src@,
{
    let mut r: Vec<u32> = Vec::new();
    let n = src.len();
    let mut i: usize = 0;
    while i < n
        invariant
            n == src@.len(),
            i <= n,
            r@ =~= src@.subrange(0, i as int),
        decreases n - i,
    {
        r.push(src[i]);
        i = i + 1;
    }
    proof {
        assert(r@ =~= src@);
    }
    r
}

/// Multiplication that is known not to exceed an already-computed bound.
fn mul_for_size(a: usize, b: usize, bound: usize) -> (r: usize)
    requires
        a * b <= bound,
    ensures
        r == a * b,
{
    a * b
}

} // verus!
