//! Pixel buffers handed between the engine and the window: the placeholder
//! frame, the vertical flip of GL read-backs, and favicon conversion to
//! RGBA.
use vstd::prelude::*;

use vstd::arithmetic::div_mod::lemma_fundamental_div_mod;
use vstd::arithmetic::div_mod::lemma_fundamental_div_mod_converse;

verus! {

/// Byte `k` of the placeholder frame: every pixel is the UI's dark
/// background, `#1E1F22` opaque.
pub open spec fn placeholder_byte(k: int) -> u8 {
    if k % 4 == 0 {
        0x1E
    } else if k % 4 == 1 {
        0x1F
    } else if k % 4 == 2 {
        0x22
    } else {
        0xFF
    }
}

/// The RGBA bytes of a `width` x `height` placeholder frame, shown before
/// the engine has rendered anything.
pub fn placeholder_pixels(width: u32, height: u32) -> (pixels: Vec<u8>)
    requires
        width * height * 4 <= u32::MAX,
    ensures
        pixels@.len() == width * height * 4,
        forall|k: int| 0 <= k < pixels@.len() ==> #[trigger] pixels@[k] == placeholder_byte(k),
{
    assert(width * height <= u32::MAX) by (nonlinear_arith)
        requires
            width * height * 4 <= u32::MAX,
    ;
    let n: u32 = width * height;
    let mut pixels: Vec<u8> = Vec::new();
    for p in 0..n
        invariant
            n == width * height,
            n * 4 <= u32::MAX,
            pixels@.len() == 4 * p,
            forall|k: int| 0 <= k < pixels@.len() ==> #[trigger] pixels@[k] == placeholder_byte(k),
    {
        pixels.push(0x1E);
        pixels.push(0x1F);
        pixels.push(0x22);
        pixels.push(0xFF);
        assert(forall|k: int|
            4 * p <= k < 4 * p + 4 ==> #[trigger] pixels@[k] == placeholder_byte(k));
    }
    pixels
}

/// `p` with its first `rows` rows of `stride` bytes in reverse order; the
/// bytes after them become 0.
pub open spec fn flipped_rows(p: Seq<u8>, stride: int, rows: int) -> Seq<u8> {
    Seq::new(
        p.len(),
        |k: int|
            if k < rows * stride {
                p[(rows - 1 - k / stride) * stride + k % stride]
            } else {
                0u8
            },
    )
}

/// A GL read-back is bottom-up: turns the `height` rows of `width` RGBA
/// pixels upside down, into a buffer as long as `pixels`.
pub fn flip_rows(pixels: &Vec<u8>, width: usize, height: usize) -> (out: Vec<u8>)
    requires
        width * 4 <= usize::MAX,
        height * (width * 4) <= pixels@.len(),
    ensures
        out@ == flipped_rows(pixels@, width * 4, height as int),
{
    let stride = width * 4;
    let ghost target = flipped_rows(pixels@, stride as int, height as int);
    let mut out: Vec<u8> = Vec::new();
    assert(0 * stride == 0);
    for row in 0..height
        invariant
            stride == width * 4,
            height * stride <= pixels@.len(),
            target == flipped_rows(pixels@, stride as int, height as int),
            out@.len() == row * stride,
            out@ =~= target.take(out@.len() as int),
    {
        assert((height - 1 - row) * stride + stride <= height * stride) by (nonlinear_arith)
            requires
                row < height,
                stride >= 0,
        ;
        assert(row * stride + stride <= height * stride) by (nonlinear_arith)
            requires
                row < height,
                stride >= 0,
        ;
        let plen = pixels.len();
        assert(plen == pixels@.len());
        let base = (height - 1 - row) * stride;
        for c in 0..stride
            invariant
                stride == width * 4,
                height * stride <= pixels@.len(),
                row < height,
                base == (height - 1 - row) * stride,
                base + stride <= height * stride,
                row * stride + stride <= height * stride,
                pixels@.len() <= usize::MAX,
                target == flipped_rows(pixels@, stride as int, height as int),
                out@.len() == row * stride + c,
                out@ =~= target.take(out@.len() as int),
        {
            proof {
                let k = row * stride + c;
                lemma_fundamental_div_mod_converse(k, stride as int, row as int, c as int);
                assert(target[k] == pixels@[(height - 1 - row) * stride + c]);
            }
            out.push(pixels[base + c]);
        }
        assert(row * stride + stride == (row + 1) * stride) by (nonlinear_arith);
    }
    assert(out@.len() == height * stride);
    while out.len() < pixels.len()
        invariant
            height * stride <= out@.len() <= pixels@.len(),
            target == flipped_rows(pixels@, stride as int, height as int),
            out@ =~= target.take(out@.len() as int),
        decreases pixels.len() - out.len(),
    {
        out.push(0);
    }
    out
}

/// Flipping twice gives the same rows back.
pub proof fn lemma_flip_twice_is_identity(p: Seq<u8>, stride: int, rows: int)
    requires
        stride > 0,
        rows >= 0,
        p.len() == rows * stride,
    ensures
        flipped_rows(flipped_rows(p, stride, rows), stride, rows) =~= p,
{
    let f1 = flipped_rows(p, stride, rows);
    let f2 = flipped_rows(f1, stride, rows);
    assert forall|k: int| 0 <= k < p.len() implies f2[k] == p[k] by {
        lemma_fundamental_div_mod(k, stride);
        let q = k / stride;
        let r = k % stride;
        assert(0 <= q < rows) by (nonlinear_arith)
            requires
                k == stride * q + r,
                0 <= r < stride,
                0 <= k < rows * stride,
                stride > 0,
        ;
        let j = (rows - 1 - q) * stride + r;
        assert(0 <= j < rows * stride) by (nonlinear_arith)
            requires
                j == (rows - 1 - q) * stride + r,
                0 <= q < rows,
                0 <= r < stride,
        ;
        lemma_fundamental_div_mod_converse(j, stride, rows - 1 - q, r);
        assert(f1[j] == p[(rows - 1 - (rows - 1 - q)) * stride + r]);
        assert(q * stride + r == k) by (nonlinear_arith)
            requires
                k == stride * q + r,
        ;
    }
}

/// Pixel layouts a favicon can come in.
pub enum PixelLayout {
    Rgba8,
    Bgra8,
    Rgb8,
    /// Grey and alpha.
    Ka8,
    /// Grey.
    K8,
    /// Any layout this conversion does not handle.
    Other,
}

/// Bytes per pixel of a layout (0 for layouts not handled).
pub open spec fn bytes_per_pixel(l: PixelLayout) -> int {
    match l {
        PixelLayout::Rgba8 => 4,
        PixelLayout::Bgra8 => 4,
        PixelLayout::Rgb8 => 3,
        PixelLayout::Ka8 => 2,
        PixelLayout::K8 => 1,
        PixelLayout::Other => 0,
    }
}

/// Channel `ch` (0 red, 1 green, 2 blue, 3 alpha) of pixel `i` in RGBA.
pub open spec fn rgba_channel(l: PixelLayout, data: Seq<u8>, i: int, ch: int) -> u8 {
    match l {
        PixelLayout::Rgba8 => data[4 * i + ch],
        PixelLayout::Bgra8 => if ch == 3 {
            data[4 * i + 3]
        } else {
            data[4 * i + 2 - ch]
        },
        PixelLayout::Rgb8 => if ch == 3 {
            0xFF
        } else {
            data[3 * i + ch]
        },
        PixelLayout::Ka8 => if ch == 3 {
            data[2 * i + 1]
        } else {
            data[2 * i]
        },
        PixelLayout::K8 => if ch == 3 {
            0xFF
        } else {
            data[i]
        },
        PixelLayout::Other => 0,
    }
}

/// Converts `width * height` pixels of `data` in layout `layout` to RGBA.
/// There is nothing to convert, and `None` comes back, when the image is
/// empty, the layout is not handled, or `data` is too short.
pub fn favicon_to_rgba(layout: PixelLayout, data: &Vec<u8>, width: u32, height: u32) -> (rgba: Option<Vec<u8>>)
    requires
        width * height * 4 <= usize::MAX,
    ensures
        rgba is None <==> (width * height == 0 || layout is Other || data@.len() < bytes_per_pixel(
            layout,
        ) * (width * height)),
        rgba matches Some(v) ==> {
            &&& v@.len() == 4 * (width * height)
            &&& forall|i: int, ch: int|
                0 <= i < width * height && 0 <= ch < 4 ==> #[trigger] v@[4 * i + ch]
                    == rgba_channel(layout, data@, i, ch)
        },
{
    assert(width * height <= usize::MAX) by (nonlinear_arith)
        requires
            width * height * 4 <= usize::MAX,
    ;
    let px: usize = (width as usize) * (height as usize);
    if px == 0 {
        return None;
    }
    let bpp: usize = match layout {
        PixelLayout::Rgba8 => 4,
        PixelLayout::Bgra8 => 4,
        PixelLayout::Rgb8 => 3,
        PixelLayout::Ka8 => 2,
        PixelLayout::K8 => 1,
        PixelLayout::Other => return None,
    };
    if data.len() / bpp < px {
        return None;
    }
    let mut out: Vec<u8> = Vec::new();
    for i in 0..px
        invariant
            px == width * height,
            4 * px <= usize::MAX,
            bpp == bytes_per_pixel(layout),
            bpp >= 1,
            !(layout is Other),
            bpp * px <= data@.len(),
            out@.len() == 4 * i,
            forall|j: int, ch: int|
                0 <= j < i && 0 <= ch < 4 ==> #[trigger] out@[4 * j + ch] == rgba_channel(
                    layout,
                    data@,
                    j,
                    ch,
                ),
    {
        assert(bpp * i + bpp <= bpp * px) by (nonlinear_arith)
            requires
                i < px,
                bpp >= 1,
        ;
        let (r, g, b, a): (u8, u8, u8, u8) = match layout {
            PixelLayout::Rgba8 => (data[4 * i], data[4 * i + 1], data[4 * i + 2], data[4 * i + 3]),
            PixelLayout::Bgra8 => (data[4 * i + 2], data[4 * i + 1], data[4 * i], data[4 * i + 3]),
            PixelLayout::Rgb8 => (data[3 * i], data[3 * i + 1], data[3 * i + 2], 0xFF),
            PixelLayout::Ka8 => (data[2 * i], data[2 * i], data[2 * i], data[2 * i + 1]),
            PixelLayout::K8 => (data[i], data[i], data[i], 0xFF),
            PixelLayout::Other => (0, 0, 0, 0),
        };
        out.push(r);
        out.push(g);
        out.push(b);
        out.push(a);
        assert(forall|j: int, ch: int|
            0 <= j < i + 1 && 0 <= ch < 4 ==> #[trigger] out@[4 * j + ch] == rgba_channel(
                layout,
                data@,
                j,
                ch,
            )) by {
            assert forall|j: int, ch: int|
                0 <= j < i + 1 && 0 <= ch < 4 implies #[trigger] out@[4 * j + ch] == rgba_channel(
                layout,
                data@,
                j,
                ch,
            ) by {
                if j == i {
                    assert(ch == 0 || ch == 1 || ch == 2 || ch == 3);
                }
            }
        }
    }
    proof {
        vstd::arithmetic::div_mod::lemma_fundamental_div_mod(data@.len() as int, bpp as int);
    }
    Some(out)
}

} // verus!
