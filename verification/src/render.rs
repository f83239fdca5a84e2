//! Verified compute behind the visual-observation pipeline.
//!
//! The GPU read-back itself is engine plumbing that lives in the
//! embedding; what reaches this module are plain pixel buffers. Here live
//! the frame-buffer model with its size invariant, the BGRA-to-RGBA
//! color-channel swap applied to frames read back from the GPU, the
//! texture read-back layout arithmetic, and the tiling math that places
//! one render target per agent on a square-ish grid.

use vstd::prelude::*;

use crate::ceil_div;
use crate::lemma_ceil_div_bounds;

verus! {

/// One rendered frame: `width * height` pixels of four bytes each
/// (one byte per color channel).
pub struct FrameBuffer {
    pub width: u32,
    pub height: u32,
    pub pixels: Vec<u8>,
}

impl FrameBuffer {
    /// Well-formedness: the buffer holds exactly four bytes per pixel.
    pub open spec fn wf(&self) -> bool {
        self.pixels@.len() as int == 4 * (self.width as int) * (self.height as int)
    }

    /// An all-zero (transparent black) frame of the given dimensions.
    pub fn new(width: u32, height: u32) -> (frame: Self)
        requires
            4 * (width as int) * (height as int) <= usize::MAX as int,
        ensures
            frame.wf(),
            frame.width == width,
            frame.height == height,
            forall|i: int| 0 <= i < frame.pixels@.len() ==> frame.pixels@[i] == 0u8,
    {
        proof {
            assert(4 * ((width as int) * (height as int)) == 4 * (width as int) * (height as int))
                by (nonlinear_arith);
        }
        let area: u64 = (width as u64) * (height as u64);
        let total: u64 = 4u64 * area;
        let mut pixels: Vec<u8> = Vec::new();
        let mut i: u64 = 0;
        while i < total
            invariant
                i <= total,
                pixels@.len() == i as int,
                forall|j: int| 0 <= j < i as int ==> pixels@[j] == 0u8,
                total as int == 4 * (width as int) * (height as int),
                total <= usize::MAX as int,
            decreases total - i,
        {
            pixels.push(0);
            i = i + 1;
        }
        FrameBuffer { width, height, pixels }
    }

    /// Adopt a raw byte buffer as a frame, the way an image container
    /// adopts one: it succeeds exactly when the buffer holds four bytes
    /// per pixel for the given dimensions.
    pub fn from_raw(width: u32, height: u32, bytes: Vec<u8>) -> (frame: Option<FrameBuffer>)
        ensures
            (frame is Some) == (bytes@.len() as int == 4 * (width as int) * (height as int)),
            frame matches Some(f) ==> f.width == width && f.height == height && f.pixels == bytes
                && f.wf(),
    {
        proof {
            assert(4 * (width as int) * (height as int) <= u128::MAX as int) by (nonlinear_arith)
                requires
                    0 <= width as int <= u32::MAX as int,
                    0 <= height as int <= u32::MAX as int,
            ;
        }
        let expected: u128 = 4u128 * (width as u128) * (height as u128);
        if bytes.len() as u128 == expected {
            Some(FrameBuffer { width, height, pixels: bytes })
        } else {
            None
        }
    }
}

/// Where each byte of a pixel comes from under the blue/red channel swap:
/// the first and third byte of every four-byte pixel trade places, the
/// rest stay.
pub open spec fn bgra_swap_index(i: int) -> int {
    if i % 4 == 0 {
        i + 2
    } else if i % 4 == 2 {
        i - 2
    } else {
        i
    }
}

/// Convert a frame read back from the GPU in BGRA byte order to RGBA, by
/// swapping the first and third byte of every pixel in place.
pub fn convert_bgra_to_rgba(image: &mut FrameBuffer)
    requires
        old(image).wf(),
    ensures
        final(image).wf(),
        final(image).width == old(image).width,
        final(image).height == old(image).height,
        final(image).pixels@.len() == old(image).pixels@.len(),
        forall|i: int|
            0 <= i < final(image).pixels@.len() ==> final(image).pixels@[i] == old(image).pixels@[
                bgra_swap_index(i)
            ],
{
    let len = image.pixels.len();
    let n = len / 4;
    proof {
        let w = image.width as int;
        let h = image.height as int;
        assert(len as int == 4 * (w * h)) by (nonlinear_arith)
            requires
                len as int == 4 * w * h,
        ;
        vstd::arithmetic::div_mod::lemma_fundamental_div_mod_converse(
            len as int,
            4,
            w * h,
            0,
        );
        assert(len as int == 4 * (n as int));
    }
    let mut p: usize = 0;
    while p < n
        invariant
            p <= n,
            len as int == 4 * (n as int),
            image.pixels@.len() == len,
            len == old(image).pixels@.len(),
            image.width == old(image).width,
            image.height == old(image).height,
            image.wf(),
            forall|j: int|
                0 <= j < 4 * (p as int) ==> image.pixels@[j] == old(image).pixels@[
                    bgra_swap_index(j)
                ],
            forall|j: int| 4 * (p as int) <= j < len as int ==> image.pixels@[j] == old(
                image,
            ).pixels@[j],
        decreases n - p,
    {
        let i = 4 * p;
        let blue = image.pixels[i];
        let red = image.pixels[i + 2];
        image.pixels[i] = red;
        image.pixels[i + 2] = blue;
        proof {
            let ii = i as int;
            vstd::arithmetic::div_mod::lemma_fundamental_div_mod_converse(ii, 4, p as int, 0);
            vstd::arithmetic::div_mod::lemma_fundamental_div_mod_converse(ii + 1, 4, p as int, 1);
            vstd::arithmetic::div_mod::lemma_fundamental_div_mod_converse(ii + 2, 4, p as int, 2);
            vstd::arithmetic::div_mod::lemma_fundamental_div_mod_converse(ii + 3, 4, p as int, 3);
            assert(bgra_swap_index(ii) == ii + 2);
            assert(bgra_swap_index(ii + 1) == ii + 1);
            assert(bgra_swap_index(ii + 2) == ii);
            assert(bgra_swap_index(ii + 3) == ii + 3);
        }
        p = p + 1;
    }
}

/// The buffer layout for reading one texture back from the GPU: how many
/// bytes one row spans and how many rows one image spans, each omitted
/// when the texture has a single row or a single layer.
pub struct TextureBufferLayout {
    pub bytes_per_row: Option<u32>,
    pub rows_per_image: Option<u32>,
}

/// Compute the read-back buffer layout for a texture of the given size
/// and block dimensions.
pub fn texture_image_layout(
    width: u32,
    height: u32,
    depth_or_array_layers: u32,
    block_width: u32,
    block_height: u32,
) -> (layout: TextureBufferLayout)
    requires
        (width as int) * (block_width as int) <= u32::MAX as int,
        (width as int) * (block_height as int) <= u32::MAX as int,
    ensures
        layout.bytes_per_row == if height > 1 {
            Some((width * block_width) as u32)
        } else {
            None::<u32>
        },
        layout.rows_per_image == if depth_or_array_layers > 1 {
            Some((width * block_height) as u32)
        } else {
            None::<u32>
        },
{
    let row_span = width * block_width;
    let image_span = width * block_height;
    TextureBufferLayout {
        bytes_per_row: if height > 1 {
            Some(row_span)
        } else {
            None
        },
        rows_per_image: if depth_or_array_layers > 1 {
            Some(image_span)
        } else {
            None
        },
    }
}

/// The square root of `n`, rounded up: the least `r` with `r * r >= n`.
pub fn ceil_sqrt(n: u32) -> (r: u32)
    ensures
        (r as int) * (r as int) >= n as int,
        r >= 1 ==> ((r - 1) as int) * ((r - 1) as int) < n as int,
        (r == 0) == (n == 0),
        r as int <= n as int,
{
    let mut r: u32 = 0;
    while (r as u64) * (r as u64) < n as u64
        invariant
            r >= 1 ==> ((r - 1) as int) * ((r - 1) as int) < n as int,
            r as int <= n as int,
            (r as int) * (r as int) <= u64::MAX as int,
        decreases n as int - r as int,
    {
        proof {
            assert(r as int + 1 <= n as int) by (nonlinear_arith)
                requires
                    (r as int) * (r as int) < n as int,
                    0 <= r as int,
            ;
        }
        r = r + 1;
        proof {
            assert((r as int) * (r as int) <= u64::MAX as int) by (nonlinear_arith)
                requires
                    0 <= r as int <= u32::MAX as int,
            ;
        }
    }
    r
}

/// How many grid columns and rows tile `num_agents` render targets: the
/// columns are the square root of the agent count rounded up, the rows
/// are however many ranks of that width the agents fill, and together
/// they always offer at least one tile per agent.
pub fn grid_dims(num_agents: u32) -> (dims: (u32, u32))
    requires
        1 <= num_agents,
    ensures
        1 <= dims.0 && 1 <= dims.1,
        (dims.0 as int) * (dims.0 as int) >= num_agents as int,
        ((dims.0 - 1) as int) * ((dims.0 - 1) as int) < num_agents as int,
        dims.1 as int == ceil_div(num_agents as int, dims.0 as int),
        (dims.0 as int) * (dims.1 as int) >= num_agents as int,
{
    let cols = ceil_sqrt(num_agents);
    let rows_wide: u64 = ((num_agents as u64) + (cols as u64) - 1) / (cols as u64);
    proof {
        lemma_ceil_div_bounds(num_agents as int, cols as int);
        let q = ceil_div(num_agents as int, cols as int);
        assert((cols as int) * q >= num_agents as int) by (nonlinear_arith)
            requires
                num_agents as int <= q * (cols as int),
        ;
    }
    let rows = rows_wide as u32;
    (cols, rows)
}

/// The byte at channel `k` of the pixel in row `y`, column `c` of a
/// row-major frame `width` pixels wide.
pub open spec fn pixel_at(pixels: Seq<u8>, width: int, y: int, c: int, k: int) -> u8 {
    pixels[4 * (y * width + c) + k]
}

/// A pixel coordinate's byte index lies inside a well-formed buffer.
proof fn lemma_pixel_index_bounds(width: int, height: int, y: int, c: int, k: int)
    requires
        0 <= y < height,
        0 <= c < width,
        0 <= k < 4,
    ensures
        0 <= 4 * (y * width + c) + k,
        4 * (y * width + c) + k < 4 * width * height,
{
    assert(0 <= 4 * (y * width + c) + k < 4 * width * height) by (nonlinear_arith)
        requires
            0 <= y < height,
            0 <= c < width,
            0 <= k < 4,
    ;
}

/// Distinct pixel coordinates occupy distinct byte indices.
proof fn lemma_pixel_index_distinct(
    width: int,
    y1: int,
    c1: int,
    k1: int,
    y2: int,
    c2: int,
    k2: int,
)
    requires
        0 <= c1 < width,
        0 <= c2 < width,
        0 <= k1 < 4,
        0 <= k2 < 4,
        0 <= y1,
        0 <= y2,
        y1 != y2 || c1 != c2 || k1 != k2,
    ensures
        4 * (y1 * width + c1) + k1 != 4 * (y2 * width + c2) + k2,
{
    let a1 = y1 * width + c1;
    let a2 = y2 * width + c2;
    if 4 * a1 + k1 == 4 * a2 + k2 {
        vstd::arithmetic::div_mod::lemma_fundamental_div_mod_converse(4 * a1 + k1, 4, a1, k1);
        vstd::arithmetic::div_mod::lemma_fundamental_div_mod_converse(4 * a2 + k2, 4, a2, k2);
        assert(a1 == a2 && k1 == k2);
        vstd::arithmetic::div_mod::lemma_fundamental_div_mod_converse(a1, width, y1, c1);
        vstd::arithmetic::div_mod::lemma_fundamental_div_mod_converse(a2, width, y2, c2);
        assert(y1 == y2 && c1 == c2);
    }
}

/// `frame` (of `frame_width * height` pixels) appears inside `strip`
/// (of `strip_width` pixels per row) with its left edge at column
/// `x_offset`.
pub open spec fn frame_placed(
    strip: Seq<u8>,
    strip_width: int,
    frame: Seq<u8>,
    frame_width: int,
    height: int,
    x_offset: int,
) -> bool {
    forall|y: int, x: int, k: int|
        0 <= y < height && 0 <= x < frame_width && 0 <= k < 4 ==> pixel_at(
            strip,
            strip_width,
            y,
            x_offset + x,
            k,
        ) == #[trigger] pixel_at(frame, frame_width, y, x, k)
}

/// Paste `frame` into `canvas` with its left edge at column `x_offset`:
/// the covered rectangle takes the frame's pixels, every other canvas
/// pixel keeps its value.
pub fn overlay_at(canvas: &mut FrameBuffer, frame: &FrameBuffer, x_offset: u32)
    requires
        old(canvas).wf(),
        frame.wf(),
        frame.height == old(canvas).height,
        x_offset as int + frame.width as int <= old(canvas).width as int,
    ensures
        final(canvas).wf(),
        final(canvas).width == old(canvas).width,
        final(canvas).height == old(canvas).height,
        frame_placed(
            final(canvas).pixels@,
            old(canvas).width as int,
            frame.pixels@,
            frame.width as int,
            frame.height as int,
            x_offset as int,
        ),
        forall|y: int, c: int, k: int|
            0 <= y < old(canvas).height as int && 0 <= c < old(canvas).width as int && 0 <= k < 4
                && !(x_offset as int <= c < x_offset as int + frame.width as int)
                ==> #[trigger] pixel_at(final(canvas).pixels@, old(canvas).width as int, y, c, k)
                == pixel_at(old(canvas).pixels@, old(canvas).width as int, y, c, k),
{
    let cw = canvas.width;
    let ch = canvas.height;
    let fw = frame.width;
    let mut y: u32 = 0;
    while y < ch
        invariant
            canvas.wf(),
            frame.wf(),
            canvas.width == cw,
            canvas.height == ch,
            cw == old(canvas).width,
            ch == old(canvas).height,
            fw == frame.width,
            frame.height == ch,
            x_offset as int + fw as int <= cw as int,
            y <= ch,
            forall|yy: int, x: int, k: int|
                0 <= yy < y as int && 0 <= x < fw as int && 0 <= k < 4 ==> pixel_at(
                    canvas.pixels@,
                    cw as int,
                    yy,
                    x_offset as int + x,
                    k,
                ) == #[trigger] pixel_at(frame.pixels@, fw as int, yy, x, k),
            forall|yy: int, c: int, k: int|
                0 <= yy < ch as int && 0 <= c < cw as int && 0 <= k < 4 && !(x_offset as int <= c
                    < x_offset as int + fw as int) ==> #[trigger] pixel_at(
                    canvas.pixels@,
                    cw as int,
                    yy,
                    c,
                    k,
                ) == pixel_at(old(canvas).pixels@, cw as int, yy, c, k),
        decreases ch as int - y as int,
    {
        let mut x: u32 = 0;
        while x < fw
            invariant
                canvas.wf(),
                frame.wf(),
                canvas.width == cw,
                canvas.height == ch,
                cw == old(canvas).width,
                ch == old(canvas).height,
                fw == frame.width,
                frame.height == ch,
                x_offset as int + fw as int <= cw as int,
                y < ch,
                x <= fw,
                forall|yy: int, xx: int, k: int|
                    0 <= yy < ch as int && 0 <= xx < fw as int && 0 <= k < 4 && (yy < y as int || (
                    yy == y as int && xx < x as int)) ==> pixel_at(
                        canvas.pixels@,
                        cw as int,
                        yy,
                        x_offset as int + xx,
                        k,
                    ) == #[trigger] pixel_at(frame.pixels@, fw as int, yy, xx, k),
                forall|yy: int, c: int, k: int|
                    0 <= yy < ch as int && 0 <= c < cw as int && 0 <= k < 4 && !(x_offset as int
                        <= c < x_offset as int + fw as int) ==> #[trigger] pixel_at(
                        canvas.pixels@,
                        cw as int,
                        yy,
                        c,
                        k,
                    ) == pixel_at(old(canvas).pixels@, cw as int, yy, c, k),
            decreases fw as int - x as int,
        {
            let col = x_offset + x;
            let clen = canvas.pixels.len();
            let flen = frame.pixels.len();
            proof {
                lemma_pixel_index_bounds(cw as int, ch as int, y as int, col as int, 0);
                lemma_pixel_index_bounds(cw as int, ch as int, y as int, col as int, 3);
                lemma_pixel_index_bounds(fw as int, ch as int, y as int, x as int, 0);
                lemma_pixel_index_bounds(fw as int, ch as int, y as int, x as int, 3);
                assert(0 <= (y as int) * (fw as int) && 0 <= (y as int) * (cw as int))
                    by (nonlinear_arith)
                    requires
                        0 <= y as int,
                        0 <= fw as int,
                        0 <= cw as int,
                ;
            }
            let src_base: u64 = 4u64 * ((y as u64) * (fw as u64) + (x as u64));
            let dst_base: u64 = 4u64 * ((y as u64) * (cw as u64) + (col as u64));
            let ghost before = canvas.pixels@;
            let mut k: u32 = 0;
            while k < 4
                invariant
                    canvas.wf(),
                    frame.wf(),
                    canvas.width == cw,
                    canvas.height == ch,
                    fw == frame.width,
                    frame.height == ch,
                    x_offset as int + fw as int <= cw as int,
                    y < ch,
                    x < fw,
                    col == x_offset + x,
                    k <= 4,
                    clen == canvas.pixels@.len(),
                    flen == frame.pixels@.len(),
                    src_base as int == 4 * ((y as int) * (fw as int) + (x as int)),
                    dst_base as int == 4 * ((y as int) * (cw as int) + (col as int)),
                    src_base as int + 3 < flen as int,
                    dst_base as int + 3 < clen as int,
                    k as int >= 1 ==> canvas.pixels@[dst_base as int] == frame.pixels@[src_base as int],
                    k as int >= 2 ==> canvas.pixels@[dst_base as int + 1] == frame.pixels@[src_base as int + 1],
                    k as int >= 3 ==> canvas.pixels@[dst_base as int + 2] == frame.pixels@[src_base as int + 2],
                    k as int >= 4 ==> canvas.pixels@[dst_base as int + 3] == frame.pixels@[src_base as int + 3],
                    forall|j: int|
                        0 <= j < canvas.pixels@.len() && !(dst_base as int <= j < dst_base as int
                            + k as int) ==> canvas.pixels@[j] == before[j],
                    canvas.pixels@.len() == before.len(),
                decreases 4 - k as int,
            {
                let src_i = (src_base + k as u64) as usize;
                let dst_i = (dst_base + k as u64) as usize;
                let b = frame.pixels[src_i];
                canvas.pixels[dst_i] = b;
                k = k + 1;
            }
            proof {
                let yi = y as int;
                let xi = x as int;
                let ci = col as int;
                let cwi = cw as int;
                let fwi = fw as int;
                assert forall|yy: int, xx: int, kk: int|
                    0 <= yy < ch as int && 0 <= xx < fwi && 0 <= kk < 4 && (yy < yi || (yy == yi
                        && xx < xi + 1)) implies pixel_at(
                    canvas.pixels@,
                    cwi,
                    yy,
                    x_offset as int + xx,
                    kk,
                ) == pixel_at(frame.pixels@, fwi, yy, xx, kk) by {
                    let cc = x_offset as int + xx;
                    lemma_pixel_index_bounds(cwi, ch as int, yy, cc, kk);
                    if yy == yi && xx == xi {
                        assert(4 * (yy * cwi + cc) + kk == dst_base as int + kk);
                        assert(canvas.pixels@[dst_base as int + kk] == frame.pixels@[src_base
                            as int + kk]);
                        assert(4 * (yy * fwi + xx) + kk == src_base as int + kk);
                    } else {
                        lemma_pixel_index_distinct(cwi, yy, cc, kk, yi, ci, 0);
                        lemma_pixel_index_distinct(cwi, yy, cc, kk, yi, ci, 1);
                        lemma_pixel_index_distinct(cwi, yy, cc, kk, yi, ci, 2);
                        lemma_pixel_index_distinct(cwi, yy, cc, kk, yi, ci, 3);
                        assert(canvas.pixels@[4 * (yy * cwi + cc) + kk] == before[4 * (yy * cwi
                            + cc) + kk]);
                    }
                }
                assert forall|yy: int, c: int, kk: int|
                    0 <= yy < ch as int && 0 <= c < cwi && 0 <= kk < 4 && !(x_offset as int <= c
                        < x_offset as int + fwi) implies pixel_at(canvas.pixels@, cwi, yy, c, kk)
                    == pixel_at(old(canvas).pixels@, cwi, yy, c, kk) by {
                    lemma_pixel_index_bounds(cwi, ch as int, yy, c, kk);
                    lemma_pixel_index_distinct(cwi, yy, c, kk, yi, ci, 0);
                    lemma_pixel_index_distinct(cwi, yy, c, kk, yi, ci, 1);
                    lemma_pixel_index_distinct(cwi, yy, c, kk, yi, ci, 2);
                    lemma_pixel_index_distinct(cwi, yy, c, kk, yi, ci, 3);
                    assert(canvas.pixels@[4 * (yy * cwi + c) + kk] == before[4 * (yy * cwi + c)
                        + kk]);
                    assert(pixel_at(before, cwi, yy, c, kk) == pixel_at(
                        old(canvas).pixels@,
                        cwi,
                        yy,
                        c,
                        kk,
                    ));
                }
            }
            x = x + 1;
        }
        y = y + 1;
    }
}

/// Lay the given frames side by side on a canvas wide enough for one
/// tile per agent: frame `i` occupies columns `i * width` up to
/// `(i + 1) * width`. Mirrors the strip the visual-observation endpoint
/// serves.
pub fn compose_frame_strip(frames: &Vec<FrameBuffer>, width: u32, height: u32, num_agents: u32) -> (strip: FrameBuffer)
    requires
        frames@.len() <= num_agents as int,
        forall|i: int|
            0 <= i < frames@.len() ==> (#[trigger] frames@[i]).wf() && frames@[i].width == width
                && frames@[i].height == height,
        (width as int) * (num_agents as int) <= u32::MAX as int,
        4 * ((width as int) * (num_agents as int)) * (height as int) <= usize::MAX as int,
    ensures
        strip.wf(),
        strip.width as int == (width as int) * (num_agents as int),
        strip.height == height,
        forall|i: int|
            0 <= i < frames@.len() ==> frame_placed(
                strip.pixels@,
                strip.width as int,
                (#[trigger] frames@[i]).pixels@,
                width as int,
                height as int,
                i * (width as int),
            ),
        forall|y: int, c: int, k: int|
            0 <= y < height as int && frames@.len() * (width as int) <= c < strip.width as int
                && 0 <= k < 4 ==> #[trigger] pixel_at(strip.pixels@, strip.width as int, y, c, k)
                == 0u8,
{
    let strip_width = width * num_agents;
    proof {
        assert(4 * (strip_width as int) * (height as int) == 4 * ((width as int) * (
        num_agents as int)) * (height as int)) by (nonlinear_arith)
            requires
                strip_width as int == (width as int) * (num_agents as int),
        ;
    }
    let mut strip = FrameBuffer::new(strip_width, height);
    proof {
        assert forall|y: int, c: int, k: int|
            0 <= y < height as int && 0 <= c < strip_width as int && 0 <= k
                < 4 implies #[trigger] pixel_at(strip.pixels@, strip_width as int, y, c, k)
            == 0u8 by {
            lemma_pixel_index_bounds(strip_width as int, height as int, y, c, k);
        }
    }
    let mut i: usize = 0;
    while i < frames.len()
        invariant
            strip.wf(),
            strip.width == strip_width,
            strip.height == height,
            strip_width as int == (width as int) * (num_agents as int),
            i <= frames@.len(),
            frames@.len() <= num_agents as int,
            forall|j: int|
                0 <= j < frames@.len() ==> (#[trigger] frames@[j]).wf() && frames@[j].width
                    == width && frames@[j].height == height,
            forall|j: int|
                0 <= j < i as int ==> frame_placed(
                    strip.pixels@,
                    strip_width as int,
                    (#[trigger] frames@[j]).pixels@,
                    width as int,
                    height as int,
                    j * (width as int),
                ),
            forall|y: int, c: int, k: int|
                0 <= y < height as int && (i as int) * (width as int) <= c < strip_width as int
                    && 0 <= k < 4 ==> #[trigger] pixel_at(
                    strip.pixels@,
                    strip_width as int,
                    y,
                    c,
                    k,
                ) == 0u8,
        decreases frames@.len() - i as int,
    {
        proof {
            assert((i as int) * (width as int) + width as int <= strip_width as int
                && 0 <= (i as int) * (width as int)) by (nonlinear_arith)
                requires
                    0 <= i as int,
                    i as int + 1 <= num_agents as int,
                    strip_width as int == (width as int) * (num_agents as int),
                    0 <= width as int,
            ;
        }
        let x_offset = (i as u32) * width;
        let ghost strip_before = strip.pixels@;
        overlay_at(&mut strip, &frames[i], x_offset);
        proof {
            let wi = width as int;
            let swi = strip_width as int;
            assert forall|j: int| 0 <= j < i as int implies frame_placed(
                strip.pixels@,
                swi,
                (#[trigger] frames@[j]).pixels@,
                wi,
                height as int,
                j * wi,
            ) by {
                assert forall|yy: int, xx: int, kk: int|
                    0 <= yy < height as int && 0 <= xx < wi && 0 <= kk < 4 implies pixel_at(
                    strip.pixels@,
                    swi,
                    yy,
                    j * wi + xx,
                    kk,
                ) == pixel_at(frames@[j].pixels@, wi, yy, xx, kk) by {
                    let cc = j * wi + xx;
                    assert(0 <= cc && cc < (i as int) * wi && cc < swi) by (nonlinear_arith)
                        requires
                            0 <= j,
                            j + 1 <= i as int,
                            i as int <= num_agents as int,
                            0 <= xx < wi,
                            cc == j * wi + xx,
                            swi == wi * (num_agents as int),
                    ;
                    assert(!(x_offset as int <= cc < x_offset as int + wi));
                    assert(pixel_at(strip.pixels@, swi, yy, cc, kk) == pixel_at(
                        strip_before,
                        swi,
                        yy,
                        cc,
                        kk,
                    ));
                }
            }
            assert forall|yy: int, c: int, kk: int|
                0 <= yy < height as int && (i as int + 1) * wi <= c < swi && 0 <= kk
                    < 4 implies #[trigger] pixel_at(strip.pixels@, swi, yy, c, kk) == 0u8 by {
                assert((i as int + 1) * wi == (i as int) * wi + wi) by (nonlinear_arith);
                assert(!(x_offset as int <= c < x_offset as int + wi));
                assert(pixel_at(strip.pixels@, swi, yy, c, kk) == pixel_at(
                    strip_before,
                    swi,
                    yy,
                    c,
                    kk,
                ));
                assert(pixel_at(strip_before, swi, yy, c, kk) == 0u8);
            }
        }
        i = i + 1;
    }
    strip
}

} // verus!
