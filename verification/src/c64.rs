//! The Commodore 64 frame buffer: a pixel surface sized by the emulated
//! machine's configuration, written through the fixed 16-colour VIC
//! palette, with out-of-range writes ignored.

use vstd::prelude::*;

verus! {

use vstd::pervasive::VecAdditionalExecFns;

/// The VIC palette entry for a colour index.
pub open spec fn spec_c64_palette(i: int) -> u32 {
    if i == 0 {
        0x000000FF
    } else if i == 1 {
        0xFFFFFFFF
    } else if i == 2 {
        0x68372BFF
    } else if i == 3 {
        0x70A4B2FF
    } else if i == 4 {
        0x6F3D86FF
    } else if i == 5 {
        0x588D43FF
    } else if i == 6 {
        0x352879FF
    } else if i == 7 {
        0xB8C76FFF
    } else if i == 8 {
        0x6F4F25FF
    } else if i == 9 {
        0x433900FF
    } else if i == 10 {
        0x9A6759FF
    } else if i == 11 {
        0x444444FF
    } else if i == 12 {
        0x6C6C6CFF
    } else if i == 13 {
        0x9AD284FF
    } else if i == 14 {
        0x6C5EB5FF
    } else {
        0x959595FF
    }
}

pub fn c64_palette(i: usize) -> (w: u32)
    requires
        i < 16,
    ensures
        w == spec_c64_palette(i as int),
{
    if i == 0 {
        0x000000FF
    } else if i == 1 {
        0xFFFFFFFF
    } else if i == 2 {
        0x68372BFF
    } else if i == 3 {
        0x70A4B2FF
    } else if i == 4 {
        0x6F3D86FF
    } else if i == 5 {
        0x588D43FF
    } else if i == 6 {
        0x352879FF
    } else if i == 7 {
        0xB8C76FFF
    } else if i == 8 {
        0x6F4F25FF
    } else if i == 9 {
        0x433900FF
    } else if i == 10 {
        0x9A6759FF
    } else if i == 11 {
        0x444444FF
    } else if i == 12 {
        0x6C6C6CFF
    } else if i == 13 {
        0x9AD284FF
    } else if i == 14 {
        0x6C5EB5FF
    } else {
        0x959595FF
    }
}

pub struct C64FrameBuffer {
    pub width: usize,
    pub height: usize,
    pub pixels: Vec<u32>,
}

impl C64FrameBuffer {
    pub open spec fn wf(self) -> bool {
        self.pixels@.len() == self.width * self.height
    }

    /// A black frame of the machine's configured size.
    pub fn new(width: usize, height: usize) -> (r: C64FrameBuffer)
        requires
            width * height <= usize::MAX,
        ensures
            r.wf(),
            r.width == width,
            r.height == height,
            forall|i: int| 0 <= i < width * height ==> #[trigger] r.pixels@[i] == 0,
    {
        proof {
            assert(width * height >= 0) by (nonlinear_arith);
        }
        let count = width * height;
        let mut pixels: Vec<u32> = Vec::new();
        let mut k: usize = 0;
        while k < count
            invariant
                pixels@.len() == k,
                k <= count,
                forall|i: int| 0 <= i < k ==> #[trigger] pixels@[i] == 0,
            decreases count - k,
        {
            pixels.push(0);
            k = k + 1;
        }
        C64FrameBuffer { width, height, pixels }
    }

    /// The rendered pixels, row-major.
    pub fn pixels(&self) -> (r: &Vec<u32>)
        ensures
            r@ == self.pixels@,
    {
        &self.pixels
    }

    pub fn get_dimension(&self) -> (r: (usize, usize))
        ensures
            r == (self.width, self.height),
    {
        (self.width, self.height)
    }

    /// Blanks the frame.
    pub fn reset(&mut self)
        requires
            old(self).wf(),
        ensures
            final(self).wf(),
            final(self).width == old(self).width,
            final(self).height == old(self).height,
            forall|i: int|
                0 <= i < final(self).pixels@.len() ==> #[trigger] final(self).pixels@[i] == 0,
    {
        let n = self.pixels.len();
        let mut k: usize = 0;
        while k < n
            invariant
                self.pixels@.len() == n,
                self.width == old(self).width,
                self.height == old(self).height,
                old(self).wf(),
                k <= n,
                forall|i: int| 0 <= i < k ==> #[trigger] self.pixels@[i] == 0,
            decreases n - k,
        {
            self.pixels.set(k, 0);
            k = k + 1;
        }
    }

    /// Writes one pixel through the palette; the colour index wraps at
    /// 16 and an out-of-range position is ignored rather than a fault.
    pub fn write(&mut self, index: usize, color: u8)
        requires
            old(self).wf(),
        ensures
            final(self).wf(),
            final(self).width == old(self).width,
            final(self).height == old(self).height,
            index < old(self).pixels@.len() ==> final(self).pixels@ =~= old(
                self,
            ).pixels@.update(index as int, spec_c64_palette((color as int) % 16)),
            index >= old(self).pixels@.len() ==> final(self).pixels@ =~= old(self).pixels@,
    {
        let mapped = c64_palette((color % 16) as usize);
        if index < self.pixels.len() {
            self.pixels.set(index, mapped);
        }
    }
}

} // verus!
