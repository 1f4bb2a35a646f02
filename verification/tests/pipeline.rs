//! The GPU presentation pipeline over concrete frames: the conversion
//! kernel, the source bridge, the blit sampling and the recorded
//! command stream.

use retro_launcher::bridge::{FrameSource, FrontBlit, GpuCommand, quad_vertices, swap_rb};
use retro_launcher::image::PixelImage;
use retro_launcher::region::{BlitRegion, full_vram_region, sample_texel};
use retro_launcher::unpack::{
    dispatch_groups, pack_rgb, pixels_per_scanline, read_packed_byte, run_conversion,
    unpack_invocation,
};

fn counter_bytes(n: usize) -> Vec<u8> {
    let mut v = Vec::with_capacity(n);
    for i in 0..n {
        v.push((i % 256) as u8);
    }
    v
}

#[test]
fn kernel_unpacks_counter_pattern() {
    // Two scanlines of 8 bytes: two whole triples per line, two tail bytes.
    let scanlines = 2usize;
    let bpr = 8usize;
    let packed = counter_bytes(scanlines * bpr);
    assert_eq!(pixels_per_scanline(bpr), 2);
    let mut out = vec![0x1234_5678u32; scanlines * 2];
    run_conversion(&packed, &mut out, scanlines, bpr);
    assert_eq!(out[0], 0xFF00_0000 | (2 << 16) | (1 << 8) | 0);
    assert_eq!(out[1], 0xFF00_0000 | (5 << 16) | (4 << 8) | 3);
    assert_eq!(out[2], 0xFF00_0000 | (10 << 16) | (9 << 8) | 8);
    assert_eq!(out[3], 0xFF00_0000 | (13 << 16) | (12 << 8) | 11);
}

#[test]
fn out_of_grid_invocations_touch_nothing() {
    // A coordinate outside the pixel grid, as the over-covering 8x8
    // dispatch issues them, must leave the output at its prior value.
    let scanlines = 1usize;
    let bpr = 4usize;
    let packed = counter_bytes(scanlines * bpr);
    let sentinel = 0xAABB_CCDDu32;
    let mut out = vec![sentinel; 1];
    unpack_invocation(&packed, &mut out, 1, 0, scanlines, bpr);
    assert_eq!(out[0], sentinel);
    unpack_invocation(&packed, &mut out, 0, 1, scanlines, bpr);
    assert_eq!(out[0], sentinel);
    unpack_invocation(&packed, &mut out, 7, 7, scanlines, bpr);
    assert_eq!(out[0], sentinel);
    // The in-grid invocation then writes exactly its pixel.
    unpack_invocation(&packed, &mut out, 0, 0, scanlines, bpr);
    assert_eq!(out[0], 0xFF00_0000 | (2 << 16) | (1 << 8) | 0);
}

#[test]
fn four_by_four_end_to_end() {
    // 4x4 packed 24-bit frame, bytes 0..47, no truncated tail.
    let scanlines = 4usize;
    let bpr = 12usize;
    let packed = counter_bytes(scanlines * bpr);
    let ppr = pixels_per_scanline(bpr);
    assert_eq!(ppr, 4);
    let mut out = vec![0u32; scanlines * ppr];
    run_conversion(&packed, &mut out, scanlines, bpr);
    assert_eq!(out[0], 0xFF02_0100);
    assert_eq!(out[3], 0xFF00_0000 | (11 << 16) | (10 << 8) | 9);
}

#[test]
fn swap_cancels_bgr_packing() {
    // Packed (R,G,B) sampled through the swapped view comes back in the
    // original channel order.
    let word = pack_rgb(10, 20, 30);
    assert_eq!(word, 0xFF00_0000 | (30 << 16) | (20 << 8) | 10);
    assert_eq!(swap_rb(word), 0xFF00_0000 | (10 << 16) | (20 << 8) | 30);
}

#[test]
fn single_triple_round_trip() {
    // One packed pixel through the whole 24-bit path: the displayed
    // colour equals the logical (R, G, B) input.
    let mut blit = FrontBlit::new(1, 3);
    let src = FrameSource::Packed24(vec![10, 20, 30]);
    let region = BlitRegion { left: 0, top: 0, width: 1, height: 1, extent_w: 1, extent_h: 1 };
    let dest = blit.blit(&src, region, 1, 1);
    assert_eq!(dest.pixels, vec![0xFF00_0000 | (10 << 16) | (20 << 8) | 30]);
}

#[test]
fn direct_passthrough_is_idempotent() {
    // A 16-bit frame passes through untouched: two prepares in a row
    // leave bit-identical state and content.
    let mut blit = FrontBlit::new(2, 4);
    let img = PixelImage { width: 2, height: 2, pixels: vec![1, 2, 3, 4] };
    let src = FrameSource::Direct(img);
    let staging_before = blit.staging.pixels.clone();
    blit.prepare_source(&src);
    let staging_mid = blit.staging.pixels.clone();
    blit.prepare_source(&src);
    assert_eq!(blit.staging.pixels, staging_mid);
    assert_eq!(blit.staging.pixels, staging_before);
    match &src {
        FrameSource::Direct(img) => assert_eq!(img.pixels, vec![1, 2, 3, 4]),
        _ => unreachable!(),
    }
}

#[test]
fn direct_blit_swaps_and_maps_one_to_one() {
    let mut blit = FrontBlit::new(1, 2);
    let img = PixelImage {
        width: 2,
        height: 2,
        pixels: vec![0xFF00_0001, 0xFF00_0002, 0xFF00_0003, 0xFF00_0004],
    };
    let src = FrameSource::Direct(img);
    let region = BlitRegion { left: 0, top: 0, width: 2, height: 2, extent_w: 2, extent_h: 2 };
    let dest = blit.blit(&src, region, 2, 2);
    // Full-extent selection maps destination pixels one-to-one; the R/B
    // swap moves the low byte into bits 16..24.
    assert_eq!(
        dest.pixels,
        vec![0xFF01_0000, 0xFF02_0000, 0xFF03_0000, 0xFF04_0000]
    );
}

#[test]
fn region_full_extent_spans_whole_texture() {
    // With topleft (0,0) and size = extent, pixel i samples texel i:
    // the rendered coordinates span the full [0,1] range.
    for i in [0u32, 1, 100, 255] {
        assert_eq!(sample_texel(0, 256, 256, 256, i), i);
    }
}

#[test]
fn region_half_size_shows_top_left_quadrant() {
    // With size (128,128) against extent (256,256), every sampled texel
    // stays inside the top-left quadrant.
    for i in 0..256u32 {
        let t = sample_texel(0, 128, 256, 256, i);
        assert!(t < 128);
    }
    assert_eq!(sample_texel(0, 128, 256, 256, 0), 0);
    assert_eq!(sample_texel(0, 128, 256, 256, 255), 127);
}

#[test]
fn full_vram_toggle_selects_the_whole_texture() {
    let r = full_vram_region(1024, 512);
    assert_eq!(r.left, 0);
    assert_eq!(r.top, 0);
    assert_eq!(r.width, 1024);
    assert_eq!(r.height, 512);
    assert_eq!(r.extent_w, 1024);
    assert_eq!(r.extent_h, 512);
}

#[test]
fn dispatch_grid_covers_vram() {
    assert_eq!(dispatch_groups(682), 86);
    assert_eq!(dispatch_groups(512), 64);
    assert_eq!(dispatch_groups(0), 0);
    assert_eq!(dispatch_groups(8), 1);
    assert_eq!(dispatch_groups(9), 2);
}

#[test]
fn recorded_commands_match_the_frame_shape() {
    let blit = FrontBlit::new(512, 2048);
    let region = BlitRegion {
        left: 0,
        top: 0,
        width: 640,
        height: 480,
        extent_w: 1024,
        extent_h: 512,
    };
    let render_tail = vec![
        GpuCommand::BeginRenderPass,
        GpuCommand::SetViewport(640, 480),
        GpuCommand::BindGraphicsPipeline,
        GpuCommand::BindGraphicsDescriptorSet,
        GpuCommand::PushConstants(region),
        GpuCommand::BindVertexBuffer,
        GpuCommand::Draw(4, 1),
        GpuCommand::EndRenderPass,
    ];
    let direct = blit.record_blit_commands(false, region, 640, 480);
    assert_eq!(direct, render_tail);
    let staged = blit.record_blit_commands(true, region, 640, 480);
    let mut expected = vec![
        GpuCommand::CopyImageToBuffer,
        GpuCommand::BindComputePipeline,
        GpuCommand::BindComputeDescriptorSet,
        GpuCommand::Dispatch(86, 64),
        GpuCommand::CopyBufferToImage,
    ];
    expected.extend(render_tail);
    assert_eq!(staged, expected);
}

#[test]
fn word_buffer_byte_addressing() {
    // The storage buffer holds the packed stream as words; byte i lives
    // in word i >> 2 at position i & 3.
    let words = vec![0x0302_0100u32, 0x0706_0504u32];
    for i in 0..8usize {
        assert_eq!(read_packed_byte(&words, i), i as u8);
    }
}

#[test]
fn quad_is_a_strip_ordered_unit_square() {
    assert_eq!(quad_vertices(), vec![(-1, -1), (-1, 1), (1, -1), (1, 1)]);
}
