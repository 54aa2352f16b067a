//! Scaling the framebuffer into an RGBA image for a display surface.
use vstd::prelude::*;
use vstd::arithmetic::div_mod::{lemma_fundamental_div_mod_converse, lemma_multiply_divide_lt};
use crate::model::{FRAME_SIZE, HEIGHT, WIDTH};

verus! {

/// Red, green and blue of an off pixel.
pub const OFF_SHADE: u8 = 47;

/// Red, green and blue of an on pixel.
pub const ON_SHADE: u8 = 220;

/// Byte `k` (red, green, blue, alpha) of the colour of frame pixel value `p`.
pub open spec fn rgba(p: u8, k: int) -> u8 {
    if k == 3 {
        255
    } else if p == 0 {
        OFF_SHADE
    } else {
        ON_SHADE
    }
}

/// The frame pixel that pixel `q` of the image shows, where the image is
/// `scale` times the frame in each direction and is laid out row by row.
pub open spec fn source_pixel(data: Seq<u8>, scale: int, q: int) -> u8 {
    let w = WIDTH * scale;
    data[(q / w / scale) * WIDTH + (q % w) / scale]
}

/// Bytes of the RGBA image of the frame at `scale`.
pub open spec fn image_len(scale: int) -> int {
    4 * FRAME_SIZE * scale * scale
}

/// Fills the start of `display` with the RGBA image of the frame `data` scaled up by
/// `scale` with nearest-neighbour sampling: four bytes per image pixel, row
/// by row, each pixel coloured after the frame pixel it falls in. Bytes
/// past the image keep their value.
pub fn nearest_interpolation(data: &[u8], display: &mut Vec<u8>, scale: u32)
    requires
        data@.len() >= FRAME_SIZE,
        old(display)@.len() >= image_len(scale as int),
    ensures
        final(display)@.len() == old(display)@.len(),
        forall|j: int|
            image_len(scale as int) <= j < old(display)@.len() ==> #[trigger] final(display)@[j]
                == old(display)@[j],
        forall|q: int, k: int|
            0 <= q < FRAME_SIZE * scale * scale && 0 <= k < 4 ==> #[trigger] final(display)@[4 * q
                + k] == rgba(source_pixel(data@, scale as int, q), k),
{
    if scale == 0 {
        assert(FRAME_SIZE * scale * scale == 0);
        return;
    }
    let s = scale as usize;
    let len = display.len();
    let ghost d0 = display@;
    assert(WIDTH * s * (HEIGHT * s) == FRAME_SIZE * s * s && 4 * (WIDTH * s * (HEIGHT * s)) <= len
        && 4 * (WIDTH * s * (HEIGHT * s)) == image_len(s as int) && WIDTH * s <= len)
        by (nonlinear_arith)
        requires
            s >= 1,
            len >= 4 * FRAME_SIZE * s * s,
    ;
    let w: usize = WIDTH * s;
    let h: usize = HEIGHT * s;
    let mut y: usize = 0;
    let mut pos: usize = 0;
    while y < h
        invariant
            data@.len() >= FRAME_SIZE,
            d0 == old(display)@,
            s == scale,
            s >= 1,
            w == WIDTH * s,
            h == HEIGHT * s,
            w * h == FRAME_SIZE * s * s,
            display@.len() == len,
            image_len(s as int) == 4 * (w * h),
            len >= 4 * (w * h),
            forall|j: int| 4 * (w * h) <= j < len ==> #[trigger] display@[j] == d0[j],
            y <= h,
            pos == y * w,
            forall|q: int, k: int|
                0 <= q < pos && 0 <= k < 4 ==> #[trigger] display@[4 * q + k] == rgba(
                    source_pixel(data@, s as int, q),
                    k,
                ),
        decreases h - y,
    {
        assert(y * w + w <= w * h) by (nonlinear_arith)
            requires
                y < h,
                w >= 0,
        ;
        proof {
            lemma_multiply_divide_lt(y as int, s as int, HEIGHT as int);
        }
        let mut x: usize = 0;
        while x < w
            invariant
                data@.len() >= FRAME_SIZE,
                d0 == old(display)@,
                s == scale,
                s >= 1,
                w == WIDTH * s,
                h == HEIGHT * s,
                w * h == FRAME_SIZE * s * s,
                display@.len() == len,
                image_len(s as int) == 4 * (w * h),
                len >= 4 * (w * h),
                forall|j: int| 4 * (w * h) <= j < len ==> #[trigger] display@[j] == d0[j],
                y < h,
                y / s < HEIGHT,
                y * w + w <= w * h,
                x <= w,
                pos == y * w + x,
                forall|q: int, k: int|
                    0 <= q < pos && 0 <= k < 4 ==> #[trigger] display@[4 * q + k] == rgba(
                        source_pixel(data@, s as int, q),
                        k,
                    ),
            decreases w - x,
        {
            proof {
                lemma_multiply_divide_lt(x as int, s as int, WIDTH as int);
                lemma_fundamental_div_mod_converse(pos as int, w as int, y as int, x as int);
            }
            let pixel = data[(y / s) * WIDTH + x / s];
            let (r, g, b) = if pixel == 0 {
                (OFF_SHADE, OFF_SHADE, OFF_SHADE)
            } else {
                (ON_SHADE, ON_SHADE, ON_SHADE)
            };
            let i = pos * 4;
            display[i] = r;
            display[i + 1] = g;
            display[i + 2] = b;
            display[i + 3] = 255;
            assert(pixel == source_pixel(data@, s as int, pos as int));
            assert forall|q: int, k: int|
                0 <= q < pos + 1 && 0 <= k < 4 implies #[trigger] display@[4 * q + k] == rgba(
                source_pixel(data@, s as int, q),
                k,
            ) by {
                if q == pos {
                    assert(4 * q + k == i + k);
                }
            }
            x += 1;
            pos += 1;
        }
        assert(y * w + w == (y + 1) * w) by (nonlinear_arith);
        y += 1;
    }
    assert(y * w == w * h) by (nonlinear_arith)
        requires
            y == h,
    ;
}

} // verus!
