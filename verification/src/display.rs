//! The Game Boy frame buffer: a fixed 160x144 pixel surface, the classic
//! green-tinted four-shade palette, and the byte view handed to the
//! texture upload.

use vstd::prelude::*;

verus! {

use vstd::pervasive::VecAdditionalExecFns;
use crate::unpack::spec_word_byte;

pub const WIDTH: usize = 160;

pub const HEIGHT: usize = 144;

/// One of the four shades the monochrome Game Boy emits.
#[derive(Clone, Copy, Debug, PartialEq, Eq, Structural)]
pub enum GbColor {
    White,
    LightGray,
    DarkGray,
    Black,
}

/// An opaque ARGB word from 8-bit channels.
pub open spec fn spec_rgb_to_u32(r: u8, g: u8, b: u8) -> u32 {
    0xFF00_0000u32 | ((r as u32) << 16) | ((g as u32) << 8) | (b as u32)
}

pub fn rgb_to_u32(r: u8, g: u8, b: u8) -> (w: u32)
    ensures
        w == spec_rgb_to_u32(r, g, b),
{
    0xFF00_0000u32 | ((r as u32) << 16) | ((g as u32) << 8) | (b as u32)
}

pub open spec fn spec_color_index(color: GbColor) -> int {
    match color {
        GbColor::White => 0,
        GbColor::LightGray => 1,
        GbColor::DarkGray => 2,
        GbColor::Black => 3,
    }
}

pub fn color_index(color: GbColor) -> (r: usize)
    ensures
        r == spec_color_index(color),
        r < 4,
{
    match color {
        GbColor::White => 0,
        GbColor::LightGray => 1,
        GbColor::DarkGray => 2,
        GbColor::Black => 3,
    }
}

/// The monochrome palette, lightest to darkest.
pub open spec fn spec_dmg_palette(i: int) -> u32 {
    if i == 0 {
        spec_rgb_to_u32(224, 248, 208)
    } else if i == 1 {
        spec_rgb_to_u32(136, 192, 112)
    } else if i == 2 {
        spec_rgb_to_u32(52, 104, 86)
    } else {
        spec_rgb_to_u32(8, 24, 32)
    }
}

pub fn dmg_palette(i: usize) -> (w: u32)
    requires
        i < 4,
    ensures
        w == spec_dmg_palette(i as int),
{
    if i == 0 {
        rgb_to_u32(224, 248, 208)
    } else if i == 1 {
        rgb_to_u32(136, 192, 112)
    } else if i == 2 {
        rgb_to_u32(52, 104, 86)
    } else {
        rgb_to_u32(8, 24, 32)
    }
}

pub struct FrameBuffer {
    pub pixels: Vec<u32>,
}

impl FrameBuffer {
    pub open spec fn wf(self) -> bool {
        self.pixels@.len() == WIDTH * HEIGHT
    }

    /// A fresh frame, every pixel the lightest shade.
    pub fn new() -> (r: FrameBuffer)
        ensures
            r.wf(),
            forall|i: int|
                0 <= i < WIDTH * HEIGHT ==> #[trigger] r.pixels@[i] == spec_dmg_palette(0),
    {
        let fill = dmg_palette(0);
        let mut pixels: Vec<u32> = Vec::new();
        let mut k: usize = 0;
        while k < WIDTH * HEIGHT
            invariant
                pixels@.len() == k,
                k <= WIDTH * HEIGHT,
                fill == spec_dmg_palette(0),
                forall|i: int| 0 <= i < k ==> #[trigger] pixels@[i] == spec_dmg_palette(0),
            decreases WIDTH * HEIGHT - k,
        {
            let ghost pre = pixels@;
            pixels.push(fill);
            proof {
                assert(pixels@ == pre.push(fill));
                assert(pre.len() == k);
                assert(fill == spec_dmg_palette(0));
                assert forall|i: int| 0 <= i < k + 1 implies #[trigger] pixels@[i]
                    == spec_dmg_palette(0) by {
                    if i < k {
                        assert(pixels@[i] == pre[i]);
                    } else {
                        assert(pixels@[i] == fill);
                    }
                }
            }
            k = k + 1;
        }
        FrameBuffer { pixels }
    }

    /// Writes one monochrome pixel through the palette; an out-of-range
    /// index is ignored rather than a fault.
    pub fn map_pixel(&mut self, pixel: usize, color: GbColor)
        requires
            old(self).wf(),
        ensures
            final(self).wf(),
            pixel < WIDTH * HEIGHT ==> final(self).pixels@ =~= old(self).pixels@.update(
                pixel as int,
                spec_dmg_palette(spec_color_index(color)),
            ),
            pixel >= WIDTH * HEIGHT ==> final(self).pixels@ =~= old(self).pixels@,
    {
        if pixel < self.pixels.len() {
            let idx = color_index(color);
            let value = dmg_palette(idx);
            self.pixels.set(pixel, value);
        }
    }

    /// Writes one colour pixel from 8-bit channels; an out-of-range
    /// index is ignored rather than a fault.
    pub fn cgb_map_pixel(&mut self, pixel: usize, red: u8, green: u8, blue: u8)
        requires
            old(self).wf(),
        ensures
            final(self).wf(),
            pixel < WIDTH * HEIGHT ==> final(self).pixels@ =~= old(self).pixels@.update(
                pixel as int,
                spec_rgb_to_u32(red, green, blue),
            ),
            pixel >= WIDTH * HEIGHT ==> final(self).pixels@ =~= old(self).pixels@,
    {
        if pixel < self.pixels.len() {
            let value = rgb_to_u32(red, green, blue);
            self.pixels.set(pixel, value);
        }
    }

    /// The frame as bytes, each pixel word spelled little-endian, for
    /// the texture upload.
    pub fn as_bytes(&self) -> (r: Vec<u8>)
        requires
            self.wf(),
        ensures
            r@.len() == 4 * WIDTH * HEIGHT,
            forall|j: int, k: int|
                0 <= j < WIDTH * HEIGHT && 0 <= k < 4 ==> r@[4 * j + k]
                    == #[trigger] spec_word_byte(self.pixels@[j], k),
    {
        let n = self.pixels.len();
        let mut r: Vec<u8> = Vec::new();
        let mut j: usize = 0;
        while j < n
            invariant
                j <= n,
                n == self.pixels@.len(),
                n == WIDTH * HEIGHT,
                r@.len() == 4 * j,
                forall|jj: int, k: int|
                    0 <= jj < j && 0 <= k < 4 ==> r@[4 * jj + k]
                        == #[trigger] spec_word_byte(self.pixels@[jj], k),
            decreases n - j,
        {
            let w = self.pixels[j];
            proof {
                assert(w & 0xFF < 256 && (w >> 8) & 0xFF < 256 && (w >> 16) & 0xFF < 256 && (w
                    >> 24) & 0xFF < 256) by (bit_vector);
            }
            let ghost pre = r@;
            r.push((w & 0xFF) as u8);
            r.push(((w >> 8) & 0xFF) as u8);
            r.push(((w >> 16) & 0xFF) as u8);
            r.push(((w >> 24) & 0xFF) as u8);
            proof {
                assert(r@.len() == 4 * j + 4);
                assert forall|jj: int, k: int|
                    0 <= jj < j + 1 && 0 <= k < 4 implies r@[4 * jj + k] == #[trigger] spec_word_byte(
                    self.pixels@[jj],
                    k,
                ) by {
                    if jj < j {
                        assert(r@[4 * jj + k] == pre[4 * jj + k]);
                    } else {
                        assert(r@[4 * j + 0] == (w & 0xFF) as u8);
                        assert(r@[4 * j + 1] == ((w >> 8) & 0xFF) as u8);
                        assert(r@[4 * j + 2] == ((w >> 16) & 0xFF) as u8);
                        assert(r@[4 * j + 3] == ((w >> 24) & 0xFF) as u8);
                        assert((w >> (8 * 0)) == w && (w >> (8 * 1)) == (w >> 8) && (w >> (8 * 2))
                            == (w >> 16) && (w >> (8 * 3)) == (w >> 24)) by (bit_vector);
                    }
                }
            }
            j = j + 1;
        }
        r
    }
}

} // verus!
