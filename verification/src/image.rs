//! A plain model of a 2D GPU image: a row-major pixel buffer with a fixed
//! extent.  The presentation pipeline owns three of these — the source
//! VRAM image, the 24-bit staging image and the destination image — and
//! every contract about blitting speaks of their pixel content.

use vstd::prelude::*;

verus! {

use vstd::pervasive::VecAdditionalExecFns;

pub struct PixelImage {
    pub width: usize,
    pub height: usize,
    pub pixels: Vec<u32>,
}

impl PixelImage {
    /// The pixel buffer holds exactly one word per coordinate.
    pub open spec fn wf(self) -> bool {
        self.pixels@.len() == self.width * self.height
    }

    /// The word at `(x, y)`, row-major.
    pub open spec fn spec_pixel(self, x: int, y: int) -> u32 {
        self.pixels@[y * self.width + x]
    }

    pub fn new(width: usize, height: usize, fill: u32) -> (r: PixelImage)
        requires
            width * height <= usize::MAX,
        ensures
            r.wf(),
            r.width == width,
            r.height == height,
            forall|x: int, y: int|
                0 <= x < width && 0 <= y < height ==> r.spec_pixel(x, y) == fill,
    {
        let count = width * height;
        let mut pixels: Vec<u32> = Vec::new();
        let mut k: usize = 0;
        while k < count
            invariant
                pixels@.len() == k,
                k <= count,
                forall|i: int| 0 <= i < k ==> pixels@[i] == fill,
            decreases count - k,
        {
            pixels.push(fill);
            k = k + 1;
        }
        let img = PixelImage { width, height, pixels };
        proof {
            assert forall|x: int, y: int|
                0 <= x < width && 0 <= y < height implies img.spec_pixel(x, y) == fill by {
                crate::unpack::lemma_pixel_index(width as nat, height as nat, x as nat, y as nat);
                assert(0 <= y * width + x);
                assert((y * width + x) < width * height) by (nonlinear_arith)
                    requires
                        0 <= x < width,
                        0 <= y < height,
                ;
                assert(img.pixels@[y * width + x] == fill);
            }
        }
        img
    }

    pub fn pixel(&self, x: usize, y: usize) -> (r: u32)
        requires
            self.wf(),
            x < self.width,
            y < self.height,
        ensures
            r == self.spec_pixel(x as int, y as int),
    {
        let _total = self.pixels.len();
        proof {
            crate::unpack::lemma_pixel_index(
                self.width as nat,
                self.height as nat,
                x as nat,
                y as nat,
            );
        }
        self.pixels[y * self.width + x]
    }

    pub fn set_pixel(&mut self, x: usize, y: usize, value: u32)
        requires
            old(self).wf(),
            x < old(self).width,
            y < old(self).height,
        ensures
            final(self).wf(),
            final(self).width == old(self).width,
            final(self).height == old(self).height,
            final(self).spec_pixel(x as int, y as int) == value,
            forall|xx: int, yy: int|
                0 <= xx < old(self).width && 0 <= yy < old(self).height && !(xx == x && yy == y)
                    ==> final(self).spec_pixel(xx, yy) == old(self).spec_pixel(xx, yy),
    {
        let _total = self.pixels.len();
        proof {
            crate::unpack::lemma_pixel_index(
                self.width as nat,
                self.height as nat,
                x as nat,
                y as nat,
            );
        }
        let idx = y * self.width + x;
        self.pixels.set(idx, value);
        proof {
            assert forall|xx: int, yy: int|
                0 <= xx < self.width && 0 <= yy < self.height && !(xx == x && yy == y) implies self
                .spec_pixel(xx, yy) == old(self).spec_pixel(xx, yy) by {
                crate::unpack::lemma_pixel_index(
                    self.width as nat,
                    self.height as nat,
                    xx as nat,
                    yy as nat,
                );
                crate::unpack::lemma_pixel_index(
                    self.width as nat,
                    self.height as nat,
                    x as nat,
                    y as nat,
                );
            }
        }
    }
}

} // verus!
