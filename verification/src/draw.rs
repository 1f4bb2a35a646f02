//! Software drawing over a row-major pixel buffer: filled rectangles and
//! 8x8 bitmap glyphs, clipped at the buffer's edges.  Both the graphical
//! game selector and the overlay renderer paint with these.

use vstd::prelude::*;

verus! {

use vstd::pervasive::VecAdditionalExecFns;

/// The glyph bitmap of the legacy 8x8 font for one of the first 128 code
/// points: one byte per row, least significant bit leftmost.
pub uninterp spec fn spec_basic_glyph(idx: usize) -> Seq<u8>;

/// Relies on font8x8's `legacy::BASIC_LEGACY` table: the glyph depends
/// on the code point alone.
#[verifier::external_body]
fn basic_glyph(idx: usize) -> (r: [u8; 8])
    requires
        idx < 128,
    ensures
        r@ == spec_basic_glyph(idx),
        r@.len() == 8,
{
    font8x8::legacy::BASIC_LEGACY[idx]
}

/// The glyph drawn for a character: its own bitmap inside the basic
/// range, the question mark's outside it.
pub open spec fn spec_glyph_for(c: char) -> Seq<u8> {
    if (c as u32) < 128 {
        spec_basic_glyph((c as u32) as usize)
    } else {
        spec_basic_glyph(('?' as u32) as usize)
    }
}

pub fn glyph_for(c: char) -> (r: [u8; 8])
    ensures
        r@ == spec_glyph_for(c),
        r@.len() == 8,
{
    let u = c as u32;
    if u < 128 {
        basic_glyph(u as usize)
    } else {
        let q = '?';
        basic_glyph((q as u32) as usize)
    }
}

/// Whether a glyph row lights the pixel at `col`.
pub open spec fn spec_glyph_bit(row_bits: u8, col: int) -> bool {
    (row_bits >> (col as u8)) & 1 == 1
}

/// Fills a rectangle with one colour, clipped to the buffer.
pub fn fill_rect(
    fb: &mut Vec<u32>,
    fb_w: usize,
    fb_h: usize,
    x: usize,
    y: usize,
    w: usize,
    h: usize,
    color: u32,
)
    requires
        old(fb)@.len() == fb_w * fb_h,
        x + w <= usize::MAX,
        y + h <= usize::MAX,
    ensures
        final(fb)@.len() == old(fb)@.len(),
        forall|i: int, j: int|
            0 <= i < fb_w && 0 <= j < fb_h ==> #[trigger] final(fb)@[j * fb_w + i] == (if x <= i < x
                + w && y <= j < y + h {
                color
            } else {
                old(fb)@[j * fb_w + i]
            }),
{
    let max_y = if y + h < fb_h {
        y + h
    } else {
        fb_h
    };
    let max_x = if x + w < fb_w {
        x + w
    } else {
        fb_w
    };
    let mut j: usize = y;
    while j < max_y
        invariant
            fb@.len() == fb_w * fb_h,
            y <= j,
            j <= max_y || j == y,
            max_y <= fb_h,
            max_x <= fb_w,
            max_y <= y + h,
            max_x <= x + w,
            fb_h <= y + h || max_y == y + h,
            fb_w <= x + w || max_x == x + w,
            forall|ii: int, jj: int|
                0 <= ii < fb_w && 0 <= jj < fb_h ==> #[trigger] fb@[jj * fb_w + ii] == (if x <= ii
                    < max_x && y <= jj < j {
                    color
                } else {
                    old(fb)@[jj * fb_w + ii]
                }),
        decreases max_y - j,
    {
        let mut i: usize = x;
        while i < max_x
            invariant
                fb@.len() == fb_w * fb_h,
                y <= j < max_y,
                x <= i,
                i <= max_x || i == x,
                max_y <= fb_h,
                max_x <= fb_w,
                forall|ii: int, jj: int|
                    0 <= ii < fb_w && 0 <= jj < fb_h ==> #[trigger] fb@[jj * fb_w + ii] == (if (x
                        <= ii < max_x && y <= jj < j) || (jj == j && x <= ii < i) {
                        color
                    } else {
                        old(fb)@[jj * fb_w + ii]
                    }),
            decreases max_x - i,
        {
            let _total = fb.len();
            proof {
                crate::unpack::lemma_pixel_index(fb_w as nat, fb_h as nat, i as nat, j as nat);
                assert(fb_w * fb_h == fb_h * fb_w) by (nonlinear_arith);
            }
            let idx = j * fb_w + i;
            fb.set(idx, color);
            proof {
                assert forall|ii: int, jj: int|
                    0 <= ii < fb_w && 0 <= jj < fb_h implies #[trigger] fb@[jj * fb_w + ii] == (if (
                x <= ii < max_x && y <= jj < j) || (jj == j && x <= ii < i + 1) {
                    color
                } else {
                    old(fb)@[jj * fb_w + ii]
                }) by {
                    crate::unpack::lemma_pixel_index(fb_w as nat, fb_h as nat, ii as nat, jj as nat);
                    crate::unpack::lemma_pixel_index(fb_w as nat, fb_h as nat, i as nat, j as nat);
                }
            }
            i = i + 1;
        }
        j = j + 1;
    }
}

/// Paints one character's glyph at `(x, y)`: exactly the lit glyph bits
/// inside the buffer take the colour, everything else is untouched.
pub fn draw_char(fb: &mut Vec<u32>, fb_w: usize, fb_h: usize, x: usize, y: usize, c: char, color: u32)
    requires
        old(fb)@.len() == fb_w * fb_h,
        x + 8 <= usize::MAX,
        y + 8 <= usize::MAX,
    ensures
        final(fb)@.len() == old(fb)@.len(),
        forall|i: int, j: int|
            0 <= i < fb_w && 0 <= j < fb_h ==> #[trigger] final(fb)@[j * fb_w + i] == (if x <= i < x
                + 8 && y <= j < y + 8 && spec_glyph_bit(spec_glyph_for(c)[j - y], i - x) {
                color
            } else {
                old(fb)@[j * fb_w + i]
            }),
{
    let glyph = glyph_for(c);
    let mut row: usize = 0;
    while row < 8
        invariant
            fb@.len() == fb_w * fb_h,
            old(fb)@.len() == fb_w * fb_h,
            row <= 8,
            glyph@ == spec_glyph_for(c),
            glyph@.len() == 8,
            x + 8 <= usize::MAX,
            y + 8 <= usize::MAX,
            forall|ii: int, jj: int|
                0 <= ii < fb_w && 0 <= jj < fb_h ==> #[trigger] fb@[jj * fb_w + ii] == (if x <= ii
                    < x + 8 && y <= jj < y + row && spec_glyph_bit(
                    spec_glyph_for(c)[jj - y],
                    ii - x,
                ) {
                    color
                } else {
                    old(fb)@[jj * fb_w + ii]
                }),
        decreases 8 - row,
    {
        let yy = y + row;
        if yy >= fb_h {
            proof {
                assert forall|ii: int, jj: int|
                    0 <= ii < fb_w && 0 <= jj < fb_h implies #[trigger] fb@[jj * fb_w + ii] == (if x
                    <= ii < x + 8 && y <= jj < y + 8 && spec_glyph_bit(
                    spec_glyph_for(c)[jj - y],
                    ii - x,
                ) {
                    color
                } else {
                    old(fb)@[jj * fb_w + ii]
                }) by {}
            }
            return ;
        }
        let row_bits = glyph[row];
        let mut col: usize = 0;
        while col < 8
            invariant
                fb@.len() == fb_w * fb_h,
                row < 8,
                col <= 8,
                yy == y + row,
                yy < fb_h,
                glyph@ == spec_glyph_for(c),
                glyph@.len() == 8,
                row_bits == spec_glyph_for(c)[row as int],
                x + 8 <= usize::MAX,
                forall|ii: int, jj: int|
                    0 <= ii < fb_w && 0 <= jj < fb_h ==> #[trigger] fb@[jj * fb_w + ii] == (if (x
                        <= ii < x + 8 && y <= jj < y + row && spec_glyph_bit(
                        spec_glyph_for(c)[jj - y],
                        ii - x,
                    )) || (jj == y + row && x <= ii < x + col && spec_glyph_bit(
                        spec_glyph_for(c)[jj - y],
                        ii - x,
                    )) {
                        color
                    } else {
                        old(fb)@[jj * fb_w + ii]
                    }),
            decreases 8 - col,
        {
            let lit = (row_bits >> (col as u8)) & 1 == 1;
            let xx = x + col;
            if lit && xx < fb_w {
                let _total = fb.len();
                proof {
                    crate::unpack::lemma_pixel_index(fb_w as nat, fb_h as nat, xx as nat, yy as nat);
                    assert(fb_w * fb_h == fb_h * fb_w) by (nonlinear_arith);
                }
                let idx = yy * fb_w + xx;
                fb.set(idx, color);
            }
            proof {
                assert forall|ii: int, jj: int|
                    0 <= ii < fb_w && 0 <= jj < fb_h implies #[trigger] fb@[jj * fb_w + ii] == (if (
                x <= ii < x + 8 && y <= jj < y + row && spec_glyph_bit(
                    spec_glyph_for(c)[jj - y],
                    ii - x,
                )) || (jj == y + row && x <= ii < x + col + 1 && spec_glyph_bit(
                    spec_glyph_for(c)[jj - y],
                    ii - x,
                )) {
                    color
                } else {
                    old(fb)@[jj * fb_w + ii]
                }) by {
                    crate::unpack::lemma_pixel_index(fb_w as nat, fb_h as nat, ii as nat, jj as nat);
                    if yy < fb_h && x + col < fb_w {
                        crate::unpack::lemma_pixel_index(
                            fb_w as nat,
                            fb_h as nat,
                            (x + col) as nat,
                            yy as nat,
                        );
                    }
                }
            }
            col = col + 1;
        }
        row = row + 1;
    }
}

/// The buffer after one glyph is painted at `(x, y)`: the lit glyph
/// bits inside the buffer take the colour, everything else keeps its
/// value.
pub open spec fn spec_char_painted(
    fb: Seq<u32>,
    fb_w: nat,
    x: nat,
    y: nat,
    c: char,
    color: u32,
) -> Seq<u32> {
    Seq::new(
        fb.len(),
        |idx: int|
            {
                let i = idx % (fb_w as int);
                let j = idx / (fb_w as int);
                if x <= i < x + 8 && y <= j < y + 8 && spec_glyph_bit(
                    spec_glyph_for(c)[j - y],
                    i - x,
                ) {
                    color
                } else {
                    fb[idx]
                }
            },
    )
}

/// A buffer satisfying `draw_char`'s pointwise clause is exactly the
/// painted model.
pub proof fn lemma_char_painted_equiv(
    pre: Seq<u32>,
    post: Seq<u32>,
    fb_w: nat,
    fb_h: nat,
    x: nat,
    y: nat,
    c: char,
    color: u32,
)
    requires
        pre.len() == fb_w * fb_h,
        post.len() == pre.len(),
        forall|i: int, j: int|
            0 <= i < fb_w && 0 <= j < fb_h ==> #[trigger] post[j * fb_w + i] == (if x <= i < x + 8
                && y <= j < y + 8 && spec_glyph_bit(spec_glyph_for(c)[j - y], i - x) {
                color
            } else {
                pre[j * fb_w + i]
            }),
    ensures
        post =~= spec_char_painted(pre, fb_w, x, y, c, color),
{
    assert forall|idx: int| 0 <= idx < post.len() implies post[idx] == spec_char_painted(
        pre,
        fb_w,
        x,
        y,
        c,
        color,
    )[idx] by {
        assert(fb_w >= 1) by (nonlinear_arith)
            requires
                0 <= idx < fb_w * fb_h,
        ;
        let w = fb_w as int;
        let i = idx % w;
        let j = idx / w;
        vstd::arithmetic::div_mod::lemma_fundamental_div_mod(idx, w);
        vstd::arithmetic::div_mod::lemma_mod_bound(idx, w);
        assert(j < fb_h) by (nonlinear_arith)
            requires
                idx < fb_w * fb_h,
                w == fb_w,
                j == idx / w,
                w >= 1,
                0 <= idx,
        ;
        assert(0 <= j) by (nonlinear_arith)
            requires
                0 <= idx,
                w >= 1,
                j == idx / w,
        ;
        assert(post[j * w + i] == (if x <= i < x + 8 && y <= j < y + 8 && spec_glyph_bit(
            spec_glyph_for(c)[j - y],
            i - x,
        ) {
            color
        } else {
            pre[j * w + i]
        }));
    }
}

/// The buffer after a text is painted from `(x, y)`: each character
/// advances the cursor eight pixels, a newline returns to the left
/// margin `x0` ten pixels further down.
pub open spec fn spec_text_painted(
    fb: Seq<u32>,
    fb_w: nat,
    x0: nat,
    x: nat,
    y: nat,
    text: Seq<char>,
    color: u32,
) -> Seq<u32>
    decreases text.len(),
{
    if text.len() == 0 {
        fb
    } else if text[0] == '\n' {
        spec_text_painted(fb, fb_w, x0, x0, y + 10, text.drop_first(), color)
    } else {
        spec_text_painted(
            spec_char_painted(fb, fb_w, x, y, text[0], color),
            fb_w,
            x0,
            x + 8,
            y,
            text.drop_first(),
            color,
        )
    }
}

/// Paints a text line by line: glyphs eight pixels apart, newlines
/// returning to the left margin ten pixels down, everything clipped at
/// the buffer's edges.
pub fn draw_text(
    fb: &mut Vec<u32>,
    fb_w: usize,
    fb_h: usize,
    start_x: usize,
    start_y: usize,
    text: &str,
    color: u32,
)
    requires
        old(fb)@.len() == fb_w * fb_h,
        start_x + 8 * text@.len() + 8 <= usize::MAX,
        start_y + 10 * text@.len() + 8 <= usize::MAX,
    ensures
        final(fb)@ == spec_text_painted(
            old(fb)@,
            fb_w as nat,
            start_x as nat,
            start_x as nat,
            start_y as nat,
            text@,
            color,
        ),
{
    let n = text.unicode_len();
    proof {
        assert(text@.subrange(0, n as int) =~= text@);
    }
    let mut x = start_x;
    let mut y = start_y;
    let mut k: usize = 0;
    while k < n
        invariant
            fb@.len() == fb_w * fb_h,
            n == text@.len(),
            k <= n,
            start_x <= x,
            x <= start_x + 8 * k,
            start_y <= y,
            y <= start_y + 10 * k,
            start_x + 8 * n + 8 <= usize::MAX,
            start_y + 10 * n + 8 <= usize::MAX,
            spec_text_painted(
                old(fb)@,
                fb_w as nat,
                start_x as nat,
                start_x as nat,
                start_y as nat,
                text@,
                color,
            ) == spec_text_painted(
                fb@,
                fb_w as nat,
                start_x as nat,
                x as nat,
                y as nat,
                text@.subrange(k as int, n as int),
                color,
            ),
        decreases n - k,
    {
        let c = text.get_char(k);
        let ghost pre = fb@;
        let ghost rest = text@.subrange(k as int, n as int);
        proof {
            assert(rest[0] == text@[k as int]);
            assert(rest.drop_first() =~= text@.subrange(k + 1, n as int));
        }
        if c == '\n' {
            y = y + 10;
            x = start_x;
        } else {
            draw_char(fb, fb_w, fb_h, x, y, c, color);
            proof {
                lemma_char_painted_equiv(
                    pre,
                    fb@,
                    fb_w as nat,
                    fb_h as nat,
                    x as nat,
                    y as nat,
                    c,
                    color,
                );
            }
            x = x + 8;
        }
        k = k + 1;
    }
    proof {
        assert(text@.subrange(n as int, n as int) =~= Seq::<char>::empty());
    }
}

} // verus!
