//! Conversion of decoded NV12 frames to RGBA.
//!
//! An NV12 frame of `width` by `height` pixels is a plane of `width * height`
//! luma bytes followed by a plane of interleaved chroma pairs, one `(U, V)`
//! pair for every block of two by two pixels. The conversion uses the studio
//! range coefficients of ITU-R BT.601. The coefficients have three decimal
//! places, so every channel is computed exactly, in thousandths, and then
//! rounded toward zero and clamped to `0..=255`.

use vstd::arithmetic::div_mod::lemma_fundamental_div_mod_converse;
use vstd::prelude::*;

verus! {

/// The quotient of `n` by a positive `d`, rounded toward zero.
pub open spec fn truncated_quotient(n: int, d: int) -> int {
    if n >= 0 {
        n / d
    } else {
        -((-n) / d)
    }
}

/// The nearest value to `v` that an 8-bit channel can hold.
pub open spec fn clamp_channel(v: int) -> int {
    if v < 0 {
        0
    } else if v > 255 {
        255
    } else {
        v
    }
}

/// The channel value for an intensity given in thousandths.
pub open spec fn channel_of(thousandths: int) -> u8 {
    clamp_channel(truncated_quotient(thousandths, 1000)) as u8
}

/// Red, in thousandths: `1.164 (Y - 16) + 1.596 (V - 128)`.
pub open spec fn red_thousandths(y: int, v: int) -> int {
    1164 * (y - 16) + 1596 * (v - 128)
}

/// Green, in thousandths: `1.164 (Y - 16) - 0.813 (V - 128) - 0.391 (U - 128)`.
pub open spec fn green_thousandths(y: int, u: int, v: int) -> int {
    1164 * (y - 16) - 813 * (v - 128) - 391 * (u - 128)
}

/// Blue, in thousandths: `1.164 (Y - 16) + 2.018 (U - 128)`.
pub open spec fn blue_thousandths(y: int, u: int) -> int {
    1164 * (y - 16) + 2018 * (u - 128)
}

/// One opaque RGBA pixel.
#[derive(Clone, Copy, Debug, PartialEq, Eq, Structural)]
pub struct Rgba {
    pub r: u8,
    pub g: u8,
    pub b: u8,
    pub a: u8,
}

/// The pixel that a luma sample and a chroma pair stand for.
pub open spec fn rgba_of(y: u8, u: u8, v: u8) -> Rgba {
    Rgba {
        r: channel_of(red_thousandths(y as int, v as int)),
        g: channel_of(green_thousandths(y as int, u as int, v as int)),
        b: channel_of(blue_thousandths(y as int, u as int)),
        a: 255,
    }
}

/// Where the luma sample of source pixel `(x, y)` lies in the frame.
pub open spec fn luma_index(width: int, x: int, y: int) -> int {
    y * width + x
}

/// Where the chroma pair of source pixel `(x, y)` begins in the frame.
pub open spec fn chroma_index(width: int, height: int, x: int, y: int) -> int {
    width * height + width * (y / 2) + (x / 2) * 2
}

/// The pixel that the frame `yuv` shows at source position `(x, y)`.
pub open spec fn source_pixel(yuv: Seq<u8>, width: int, height: int, x: int, y: int) -> Rgba {
    rgba_of(
        yuv[luma_index(width, x, y)],
        yuv[chroma_index(width, height, x, y)],
        yuv[chroma_index(width, height, x, y) + 1],
    )
}

/// The pixel stored at column `x` of row `y` in an RGBA image `columns` wide.
pub open spec fn image_pixel(rgba: Seq<u8>, columns: int, x: int, y: int) -> Rgba {
    let at = 4 * (y * columns + x);
    Rgba { r: rgba[at], g: rgba[at + 1], b: rgba[at + 2], a: rgba[at + 3] }
}

/// Byte `i` of the RGBA image of a frame: a channel of the pixel `i / 4`,
/// counted along the rows.
pub open spec fn image_byte(yuv: Seq<u8>, width: int, height: int, downscale: int, i: int) -> u8 {
    let columns = width / downscale;
    let pixel = source_pixel(
        yuv,
        width,
        height,
        ((i / 4) % columns) * downscale,
        ((i / 4) / columns) * downscale,
    );
    if i % 4 == 0 {
        pixel.r
    } else if i % 4 == 1 {
        pixel.g
    } else if i % 4 == 2 {
        pixel.b
    } else {
        pixel.a
    }
}

/// The RGBA image of the frame `yuv`, of `width` by `height` pixels, that
/// keeps one pixel of every `downscale` in each direction.
pub open spec fn rgba_image(yuv: Seq<u8>, width: int, height: int, downscale: int) -> Seq<u8> {
    Seq::new(
        (4 * ((width / downscale) * (height / downscale))) as nat,
        |i: int| image_byte(yuv, width, height, downscale, i),
    )
}

/// Whether a frame of `len` bytes holds every byte that a conversion of
/// `width` by `height` pixels, downscaled by `downscale`, reads. The last
/// output pixel reads the highest index, the second byte of its chroma pair.
pub open spec fn frame_covers(len: int, width: int, height: int, downscale: int) -> bool {
    let columns = width / downscale;
    let rows = height / downscale;
    columns > 0 && rows > 0 ==> chroma_index(
        width,
        height,
        (columns - 1) * downscale,
        (rows - 1) * downscale,
    ) + 1 < len
}

/// Every read of the conversion lies inside a frame that covers it, and the
/// luma index lies below the chroma index.
pub proof fn lemma_reads_in_frame(
    len: int,
    width: int,
    height: int,
    downscale: int,
    x: int,
    y: int,
)
    requires
        0 <= width,
        0 <= height,
        1 <= downscale,
        frame_covers(len, width, height, downscale),
        0 <= x < width / downscale,
        0 <= y < height / downscale,
    ensures
        0 <= x * downscale < width,
        0 <= y * downscale < height,
        0 <= luma_index(width, x * downscale, y * downscale) < width * height,
        width * height <= chroma_index(width, height, x * downscale, y * downscale),
        width * (y * downscale / 2) >= 0,
        chroma_index(width, height, x * downscale, y * downscale) + 1 < len,
{
    let columns = width / downscale;
    let rows = height / downscale;
    let xs = x * downscale;
    let ys = y * downscale;
    let xl = (columns - 1) * downscale;
    let yl = (rows - 1) * downscale;
    assert(0 <= xs <= xl && xl + downscale <= width) by (nonlinear_arith)
        requires
            0 <= x < columns,
            columns == width / downscale,
            1 <= downscale,
            0 <= width,
            xs == x * downscale,
            xl == (columns - 1) * downscale,
    ;
    assert(0 <= ys <= yl && yl + downscale <= height) by (nonlinear_arith)
        requires
            0 <= y < rows,
            rows == height / downscale,
            1 <= downscale,
            0 <= height,
            ys == y * downscale,
            yl == (rows - 1) * downscale,
    ;
    assert(0 <= ys / 2 <= yl / 2);
    assert(0 <= xs / 2 <= xl / 2);
    assert(0 <= width * (ys / 2) <= width * (yl / 2)) by (nonlinear_arith)
        requires
            0 <= width,
            0 <= ys / 2 <= yl / 2,
    ;
    assert(0 <= ys * width && ys * width + width <= width * height) by (nonlinear_arith)
        requires
            0 <= ys,
            ys + 1 <= height,
            0 <= width,
    ;
}

/// Converts an intensity in thousandths to a channel value.
fn channel(thousandths: i32) -> (c: u8)
    ensures
        c == channel_of(thousandths as int),
{
    if thousandths < 0 {
        0
    } else {
        let q: i32 = thousandths / 1000;
        if q > 255 {
            255
        } else {
            q as u8
        }
    }
}

/// Converts one luma sample and its chroma pair to an opaque RGBA pixel.
pub fn convert_pixel(y: u8, u: u8, v: u8) -> (p: Rgba)
    ensures
        p == rgba_of(y, u, v),
{
    let y: i32 = y as i32 - 16;
    let u: i32 = u as i32 - 128;
    let v: i32 = v as i32 - 128;
    Rgba {
        r: channel(1164 * y + 1596 * v),
        g: channel(1164 * y - 813 * v - 391 * u),
        b: channel(1164 * y + 2018 * u),
        a: 255,
    }
}

/// Tells whether `yuv` holds every byte that [`yuv_to_rgba`] would read.
pub fn frame_is_covered(len: usize, width: u32, height: u32, downscale: u32) -> (covered: bool)
    requires
        downscale >= 1,
    ensures
        covered == frame_covers(len as int, width as int, height as int, downscale as int),
{
    let columns: u32 = width / downscale;
    let rows: u32 = height / downscale;
    if columns == 0 || rows == 0 {
        return true;
    }
    assert((columns - 1) * downscale <= width) by (nonlinear_arith)
        requires
            columns == width / downscale,
            columns >= 1,
            downscale >= 1,
    ;
    assert((rows - 1) * downscale <= height) by (nonlinear_arith)
        requires
            rows == height / downscale,
            rows >= 1,
            downscale >= 1,
    ;
    let xl: u32 = (columns - 1) * downscale;
    let yl: u32 = (rows - 1) * downscale;
    assert(width * height <= 0xFFFF_FFFF * 0xFFFF_FFFF) by (nonlinear_arith)
        requires
            0 <= width <= 0xFFFF_FFFF,
            0 <= height <= 0xFFFF_FFFF,
    ;
    assert(width * (yl / 2) <= 0xFFFF_FFFF * 0xFFFF_FFFF) by (nonlinear_arith)
        requires
            0 <= width <= 0xFFFF_FFFF,
            0 <= yl / 2 <= 0xFFFF_FFFF,
    ;
    let plane: u128 = width as u128 * height as u128;
    let rows_before: u128 = width as u128 * (yl / 2) as u128;
    let last: u128 = plane + rows_before + ((xl / 2) as u128) * 2 + 1;
    last < len as u128
}

/// Converts an NV12 frame to RGBA, keeping one pixel of every `downscale` in
/// each direction. The image has `width / downscale` columns and
/// `height / downscale` rows, four bytes a pixel, rows first; the pixel at
/// column `x` of row `y` is the conversion of source pixel
/// `(x * downscale, y * downscale)`.
pub fn yuv_to_rgba(yuv: &[u8], width: u32, height: u32, downscale: u32) -> (rgba: Vec<u8>)
    requires
        downscale >= 1,
        frame_covers(yuv@.len() as int, width as int, height as int, downscale as int),
    ensures
        rgba@ == rgba_image(yuv@, width as int, height as int, downscale as int),
{
    let columns: u32 = width / downscale;
    let rows: u32 = height / downscale;
    let len: usize = yuv.len();
    let mut rgba: Vec<u8> = Vec::new();
    let mut y: u32 = 0;
    while y < rows
        invariant
            downscale >= 1,
            len == yuv@.len(),
            columns == width / downscale,
            rows == height / downscale,
            y <= rows,
            frame_covers(yuv@.len() as int, width as int, height as int, downscale as int),
            rgba@.len() == 4 * (y * columns),
            forall|i: int|
                0 <= i < rgba@.len() ==> rgba@[i] == #[trigger] image_byte(
                    yuv@,
                    width as int,
                    height as int,
                    downscale as int,
                    i,
                ),
        decreases rows - y,
    {
        let mut x: u32 = 0;
        while x < columns
            invariant
                downscale >= 1,
                len == yuv@.len(),
                columns == width / downscale,
                rows == height / downscale,
                y < rows,
                x <= columns,
                frame_covers(yuv@.len() as int, width as int, height as int, downscale as int),
                rgba@.len() == 4 * (y * columns + x),
                forall|i: int|
                    0 <= i < rgba@.len() ==> rgba@[i] == #[trigger] image_byte(
                        yuv@,
                        width as int,
                        height as int,
                        downscale as int,
                        i,
                    ),
            decreases columns - x,
        {
            proof {
                lemma_reads_in_frame(
                    yuv@.len() as int,
                    width as int,
                    height as int,
                    downscale as int,
                    x as int,
                    y as int,
                );
            }
            let x_src: u32 = x * downscale;
            let y_src: u32 = y * downscale;
            let luma_at: u64 = y_src as u64 * width as u64 + x_src as u64;
            let plane: u64 = width as u64 * height as u64;
            let rows_before: u64 = width as u64 * (y_src / 2) as u64;
            let chroma_at: u64 = plane + rows_before + ((x_src / 2) as u64) * 2;
            let pixel = convert_pixel(
                yuv[luma_at as usize],
                yuv[chroma_at as usize],
                yuv[(chroma_at + 1) as usize],
            );
            proof {
                let k = y * columns + x;
                assert(0 <= y * columns) by (nonlinear_arith)
                    requires
                        0 <= y,
                        0 <= columns,
                ;
                lemma_fundamental_div_mod_converse(k, columns as int, y as int, x as int);
                assert(pixel == source_pixel(
                    yuv@,
                    width as int,
                    height as int,
                    (k % (columns as int)) * downscale,
                    (k / (columns as int)) * downscale,
                ));
            }
            rgba.push(pixel.r);
            rgba.push(pixel.g);
            rgba.push(pixel.b);
            rgba.push(pixel.a);
            x = x + 1;
        }
        proof {
            assert(4 * (y * columns + columns) == 4 * ((y + 1) * columns)) by (nonlinear_arith);
        }
        y = y + 1;
    }
    proof {
        assert(rows * columns == (width / downscale) * (height / downscale)) by (nonlinear_arith)
            requires
                columns == width / downscale,
                rows == height / downscale,
        ;
        assert(rgba@ =~= rgba_image(yuv@, width as int, height as int, downscale as int));
    }
    rgba
}

/// The image shows, at column `x` of row `y`, the conversion of source pixel
/// `(x * downscale, y * downscale)`.
pub proof fn lemma_image_pixel(
    yuv: Seq<u8>,
    width: int,
    height: int,
    downscale: int,
    x: int,
    y: int,
)
    requires
        1 <= downscale,
        0 <= x < width / downscale,
        0 <= y < height / downscale,
    ensures
        image_pixel(rgba_image(yuv, width, height, downscale), width / downscale, x, y)
            == source_pixel(yuv, width, height, x * downscale, y * downscale),
{
    let columns = width / downscale;
    let rows = height / downscale;
    let k = y * columns + x;
    assert(0 <= y * columns) by (nonlinear_arith)
        requires
            0 <= y,
            0 <= columns,
    ;
    assert(y * columns + columns <= columns * rows) by (nonlinear_arith)
        requires
            y + 1 <= rows,
            0 <= columns,
    ;
    lemma_fundamental_div_mod_converse(k, columns, y, x);
    let image = rgba_image(yuv, width, height, downscale);
    let pixel = source_pixel(yuv, width, height, x * downscale, y * downscale);
    assert(image.len() == 4 * (columns * rows));
    assert(image[4 * k] == pixel.r) by {
        assert((4 * k) / 4 == k && (4 * k) % 4 == 0);
        assert(image[4 * k] == image_byte(yuv, width, height, downscale, 4 * k));
    }
    assert(image[4 * k + 1] == pixel.g) by {
        assert((4 * k + 1) / 4 == k && (4 * k + 1) % 4 == 1);
        assert(image[4 * k + 1] == image_byte(yuv, width, height, downscale, 4 * k + 1));
    }
    assert(image[4 * k + 2] == pixel.b) by {
        assert((4 * k + 2) / 4 == k && (4 * k + 2) % 4 == 2);
        assert(image[4 * k + 2] == image_byte(yuv, width, height, downscale, 4 * k + 2));
    }
    assert(image[4 * k + 3] == pixel.a) by {
        assert((4 * k + 3) / 4 == k && (4 * k + 3) % 4 == 3);
        assert(image[4 * k + 3] == image_byte(yuv, width, height, downscale, 4 * k + 3));
    }
}

} // verus!
