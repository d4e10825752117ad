//! Decoded media as plain values, and the fixed canvas that every website
//! screenshot is brought to.

use crate::errors::MediaError;
use vstd::prelude::*;

verus! {

/// The width of the canvas of a website screenshot.
pub const CANVAS_WIDTH: u32 = 1920;

/// The height of the canvas of a website screenshot.
pub const CANVAS_HEIGHT: u32 = 1080;

/// How long a page is left to settle after navigation before it is
/// captured, in seconds.
pub const PAGE_SETTLE_SECS: u64 = 3;

/// A picture as plain values: its dimensions and its RGBA bytes, row by row.
pub struct RasterView {
    pub width: u32,
    pub height: u32,
    pub pixels: Seq<u8>,
}

impl RasterView {
    /// Whether the pixel bytes are as many as the dimensions say.
    pub open spec fn well_formed(self) -> bool {
        self.pixels.len() == self.width * self.height * 4
    }

    /// The picture as a triple.
    pub open spec fn data(self) -> (u32, u32, Seq<u8>) {
        (self.width, self.height, self.pixels)
    }

    /// The picture of a triple.
    pub open spec fn of(data: (u32, u32, Seq<u8>)) -> RasterView {
        RasterView { width: data.0, height: data.1, pixels: data.2 }
    }
}

/// A decoded picture: rows of RGBA pixels, one byte per channel.
#[derive(Debug)]
pub struct Raster {
    width: u32,
    height: u32,
    pixels: Vec<u8>,
}

impl View for Raster {
    type V = RasterView;

    closed spec fn view(&self) -> RasterView {
        RasterView { width: self.width, height: self.height, pixels: self.pixels@ }
    }
}

impl Raster {
    #[verifier::type_invariant]
    spec fn inv(self) -> bool {
        self.pixels@.len() == self.width * self.height * 4
    }

    /// A picture of the given dimensions over `pixels`, where they are four
    /// bytes for each pixel; nothing otherwise.
    pub fn new(width: u32, height: u32, pixels: Vec<u8>) -> (picture: Option<Raster>)
        ensures
            match picture {
                Some(p) => p@ == (RasterView { width, height, pixels: pixels@ })
                    && p@.well_formed(),
                None => pixels@.len() != width * height * 4,
            },
    {
        assert(width * height * 4 <= 0xffff_ffff * 0xffff_ffff * 4) by (nonlinear_arith)
            requires
                0 <= width <= 0xffff_ffff,
                0 <= height <= 0xffff_ffff,
        ;
        let wanted: u128 = (width as u128) * (height as u128) * 4;
        if pixels.len() as u128 == wanted {
            Some(Raster { width, height, pixels })
        } else {
            None
        }
    }

    /// Width in pixels.
    pub fn width(&self) -> (w: u32)
        ensures
            w == self@.width,
    {
        self.width
    }

    /// Height in pixels.
    pub fn height(&self) -> (h: u32)
        ensures
            h == self@.height,
    {
        self.height
    }

    /// The RGBA bytes, row by row.
    pub fn pixels(&self) -> (bytes: &Vec<u8>)
        ensures
            bytes@ == self@.pixels,
            self@.well_formed(),
    {
        proof {
            use_type_invariant(self);
        }
        &self.pixels
    }
}

/// Whether `height` rows of `width` pixels, each row beginning `stride`
/// bytes after the one before, all lie within `len` bytes.
pub open spec fn rows_fit(len: nat, width: u32, height: u32, stride: usize) -> bool {
    height == 0 || (height - 1) * stride + 4 * width <= len
}

/// The pixel bytes of such rows, one row after the other without the bytes
/// that pad each row up to the stride.
pub open spec fn packed_rows(data: Seq<u8>, width: u32, height: u32, stride: usize) -> Seq<u8> {
    Seq::new(
        (width * height * 4) as nat,
        |i: int| data[(i / (4 * width)) * stride + i % (4 * width)],
    )
}

proof fn lemma_row_index(y: int, x: int, row: int)
    requires
        0 <= x < row,
        0 <= y,
    ensures
        (y * row + x) / row == y,
        (y * row + x) % row == x,
{
    vstd::arithmetic::div_mod::lemma_fundamental_div_mod_converse(y * row + x, row, y, x);
}

/// Makes a picture from a decoded frame whose rows of RGBA bytes are padded
/// up to `stride` bytes: the padding is left out. Nothing is returned
/// exactly when a row would reach beyond the data.
pub fn frame_from_rows(data: &[u8], width: u32, height: u32, stride: usize) -> (picture: Option<
    Raster,
>)
    ensures
        match picture {
            Some(p) => rows_fit(data@.len(), width, height, stride) && p@ == (RasterView {
                width,
                height,
                pixels: packed_rows(data@, width, height, stride),
            }),
            None => !rows_fit(data@.len(), width, height, stride),
        },
{
    if height == 0 {
        let empty = Raster::new(width, 0, Vec::new());
        assert(width * 0 * 4 == 0);
        assert(packed_rows(data@, width, 0, stride) =~= Seq::<u8>::empty());
        return empty;
    }
    let len: usize = data.len();
    assert((height - 1) * stride <= 0xffff_ffff * 0xffff_ffff_ffff_ffff) by (nonlinear_arith)
        requires
            0 <= height - 1 <= 0xffff_ffff,
            0 <= stride <= 0xffff_ffff_ffff_ffff,
    ;
    let wanted: u128 = ((height - 1) as u128) * (stride as u128) + 4 * (width as u128);
    if wanted > len as u128 {
        return None;
    }
    assert((height - 1) * stride >= 0) by (nonlinear_arith)
        requires
            0 <= height - 1,
            0 <= stride,
    ;
    let row: usize = 4 * (width as usize);
    let mut pixels: Vec<u8> = Vec::new();
    let mut y: usize = 0;
    assert(0 * row == 0);
    while y < height as usize
        invariant
            height > 0,
            row == 4 * width,
            len == data@.len(),
            (height - 1) * stride + row <= len,
            y <= height,
            pixels@.len() == y * row,
            forall|j: int|
                0 <= j < pixels@.len() ==> #[trigger] pixels@[j] == data@[(j / (row as int))
                    * stride + j % (row as int)],
        decreases height - y,
    {
        assert(0 <= y * stride <= (height - 1) * stride) by (nonlinear_arith)
            requires
                0 <= y <= height - 1,
                0 <= stride,
        ;
        let base: usize = y * stride;
        let mut x: usize = 0;
        while x < row
            invariant
                row == 4 * width,
                base == y * stride,
                len == data@.len(),
                base + row <= len,
                x <= row,
                y < height,
                pixels@.len() == y * row + x,
                forall|j: int|
                    0 <= j < pixels@.len() ==> #[trigger] pixels@[j] == data@[(j / (row as int))
                        * stride + j % (row as int)],
            decreases row - x,
        {
            proof {
                lemma_row_index(y as int, x as int, row as int);
            }
            pixels.push(data[base + x]);
            x = x + 1;
        }
        assert((y + 1) * row == y * row + row) by (nonlinear_arith);
        y = y + 1;
    }
    assert(pixels@.len() == width * height * 4) by (nonlinear_arith)
        requires
            pixels@.len() == y * row,
            y == height,
            row == 4 * width,
    ;
    assert(pixels@ =~= packed_rows(data@, width, height, stride));
    Raster::new(width, height, pixels)
}

/// The error of the `image` codec. It is carried through, never looked
/// into.
#[verifier::external_type_specification]
#[verifier::external_body]
pub struct ExImageError(image::ImageError);

/// The picture that the bytes of an image file hold, in whatever raster
/// format the image codec recognises by their first bytes: its width, its
/// height and its pixels as RGBA bytes. Nothing where the codec fails.
pub uninterp spec fn decoded_image(bytes: Seq<u8>) -> Option<(u32, u32, Seq<u8>)>;

/// The picture that the bytes of a PNG file hold. Nothing where the codec
/// fails.
pub uninterp spec fn decoded_png(bytes: Seq<u8>) -> Option<(u32, u32, Seq<u8>)>;

/// The RGBA bytes of picture `bottom` after picture `top` was laid over it
/// with its top left corner at column `x` and row `y`, each pixel of `top`
/// blended over the one below it.
pub uninterp spec fn overlaid(
    bottom: (u32, u32, Seq<u8>),
    top: (u32, u32, Seq<u8>),
    x: i64,
    y: i64,
) -> Seq<u8>;

/// A picture of one colour.
pub open spec fn solid(width: u32, height: u32, r: u8, g: u8, b: u8, a: u8) -> RasterView {
    RasterView {
        width,
        height,
        pixels: Seq::new(
            (width * height * 4) as nat,
            |i: int|
                if i % 4 == 0 {
                    r
                } else if i % 4 == 1 {
                    g
                } else if i % 4 == 2 {
                    b
                } else {
                    a
                },
        ),
    }
}

/// The smaller of two numbers.
pub open spec fn least(a: int, b: int) -> int {
    if a <= b {
        a
    } else {
        b
    }
}

/// The rectangle of `picture` that starts at column `x` and row `y` and is
/// `width` by `height`, cut down to what lies inside the picture.
pub open spec fn cropped(picture: RasterView, x: u32, y: u32, width: u32, height: u32) -> RasterView {
    let x0 = least(x as int, picture.width as int);
    let y0 = least(y as int, picture.height as int);
    let w = least(width as int, picture.width - x0);
    let h = least(height as int, picture.height - y0);
    RasterView {
        width: w as u32,
        height: h as u32,
        pixels: Seq::new(
            (w * h * 4) as nat,
            |i: int| picture.pixels[((y0 + (i / 4) / w) * picture.width + x0 + (i / 4) % w) * 4 + i % 4],
        ),
    }
}

/// Calls `image::load_from_memory` and converts what it decoded to RGBA
/// bytes with `DynamicImage::to_rgba8`. The codec guesses the format from
/// the bytes and fails on bytes that are no raster image it recognises. The
/// picture depends on the bytes alone and is named, not stated. The buffer
/// that the conversion allocates holds four bytes for each pixel, which is
/// what a `Raster` must hold.
#[verifier::external_body]
fn load_from_memory(bytes: &[u8]) -> (loaded: Result<Raster, image::ImageError>)
    ensures
        match loaded {
            Ok(picture) => decoded_image(bytes@) == Some(picture@.data()),
            Err(_) => decoded_image(bytes@) is None,
        },
{
    let rgba = image::load_from_memory(bytes)?.to_rgba8();
    Ok(Raster { width: rgba.width(), height: rgba.height(), pixels: rgba.into_raw() })
}

/// Calls `image::load_from_memory_with_format` for PNG and converts what it
/// decoded to RGBA bytes with `DynamicImage::to_rgba8`. The picture depends
/// on the bytes alone and is named, not stated. The buffer that the
/// conversion allocates holds four bytes for each pixel.
#[verifier::external_body]
fn load_png_from_memory(bytes: &[u8]) -> (loaded: Result<Raster, image::ImageError>)
    ensures
        match loaded {
            Ok(picture) => decoded_png(bytes@) == Some(picture@.data()),
            Err(_) => decoded_png(bytes@) is None,
        },
{
    let rgba = image::load_from_memory_with_format(bytes, image::ImageFormat::Png)?.to_rgba8();
    Ok(Raster { width: rgba.width(), height: rgba.height(), pixels: rgba.into_raw() })
}

/// Calls `ImageError`'s `to_string`: the codec's description of a failure.
/// Nothing is claimed of the text.
#[verifier::external_body]
fn image_error_text(error: &image::ImageError) -> (text: String) {
    error.to_string()
}

/// Calls `ImageBuffer::from_pixel`, which makes a picture of the given
/// dimensions with every pixel set to the given one. It panics when the
/// buffer would be longer than a vector can be, which `requires` excludes.
#[verifier::external_body]
fn from_pixel(width: u32, height: u32, r: u8, g: u8, b: u8, a: u8) -> (canvas: Raster)
    requires
        width * height * 4 <= isize::MAX,
    ensures
        canvas@ == solid(width, height, r, g, b, a),
{
    let rgba = image::RgbaImage::from_pixel(width, height, image::Rgba([r, g, b, a]));
    Raster { width: rgba.width(), height: rgba.height(), pixels: rgba.into_raw() }
}

/// Calls `DynamicImage::crop` on the picture as an RGBA image, which copies
/// the rectangle at `(x, y)` of the given size, pixel by pixel, after
/// cutting the rectangle down to the picture's bounds.
#[verifier::external_body]
fn crop(picture: &Raster, x: u32, y: u32, width: u32, height: u32) -> (part: Raster)
    ensures
        part@ == cropped(picture@, x, y, width, height),
{
    let buffer = image::RgbaImage::from_raw(picture.width, picture.height, picture.pixels.clone());
    let mut whole = image::DynamicImage::ImageRgba8(buffer.unwrap());
    let rgba = whole.crop(x, y, width, height).to_rgba8();
    Raster { width: rgba.width(), height: rgba.height(), pixels: rgba.into_raw() }
}

/// The byte of channel `c` of the pixel at column `col` and row `row`.
pub open spec fn byte_at(picture: RasterView, col: int, row: int, c: int) -> u8 {
    picture.pixels[(row * picture.width + col) * 4 + c]
}

/// What is plain of a byte of `bottom` after `top` was laid over it at the
/// origin: outside of `top` it stays; under an opaque pixel of `top` it
/// becomes that pixel's byte; under a fully transparent one it stays.
/// Nothing is said of a byte under a pixel that is partly transparent.
pub open spec fn laid_byte(bottom: RasterView, top: RasterView, col: int, row: int, c: int) -> Option<
    u8,
> {
    if col >= top.width || row >= top.height {
        Some(byte_at(bottom, col, row, c))
    } else if byte_at(top, col, row, 3) == 255 {
        Some(byte_at(top, col, row, c))
    } else if byte_at(top, col, row, 3) == 0 {
        Some(byte_at(bottom, col, row, c))
    } else {
        None
    }
}

/// Calls `image::imageops::overlay`, which blends `top` onto `bottom` with
/// its corner at `(x, y)` and leaves the dimensions of `bottom` as they
/// are. The blended bytes depend on the two pictures and the place alone
/// and are named, not stated. For the origin the contract adds what the
/// blending plainly does: it touches only the pixels that `top` covers,
/// copies an opaque pixel of `top` and leaves the pixel under a fully
/// transparent one.
#[verifier::external_body]
fn overlay(bottom: Raster, top: &Raster, x: i64, y: i64) -> (out: Raster)
    ensures
        out@.width == bottom@.width,
        out@.height == bottom@.height,
        out@.pixels == overlaid(bottom@.data(), top@.data(), x, y),
        x == 0 && y == 0 ==> forall|col: int, row: int, c: int|
            0 <= col < bottom@.width && 0 <= row < bottom@.height && 0 <= c < 4 ==> (laid_byte(
                bottom@,
                top@,
                col,
                row,
                c,
            ) matches Some(b) ==> #[trigger] byte_at(out@, col, row, c) == b),
{
    let below = image::RgbaImage::from_raw(bottom.width, bottom.height, bottom.pixels);
    let above = image::RgbaImage::from_raw(top.width, top.height, top.pixels.clone());
    let mut canvas = below.unwrap();
    image::imageops::overlay(&mut canvas, &above.unwrap(), x, y);
    Raster { width: canvas.width(), height: canvas.height(), pixels: canvas.into_raw() }
}

/// A screenshot brought to the canvas: itself where it already has the
/// canvas's dimensions; otherwise an opaque white canvas with the
/// screenshot's top left part, as much of it as fits, laid over it at the
/// origin.
pub open spec fn normalized(captured: RasterView) -> RasterView {
    if captured.width == CANVAS_WIDTH && captured.height == CANVAS_HEIGHT {
        captured
    } else {
        let part = cropped(
            captured,
            0,
            0,
            least(captured.width as int, CANVAS_WIDTH as int) as u32,
            least(captured.height as int, CANVAS_HEIGHT as int) as u32,
        );
        RasterView {
            width: CANVAS_WIDTH,
            height: CANVAS_HEIGHT,
            pixels: overlaid(
                solid(CANVAS_WIDTH, CANVAS_HEIGHT, 255, 255, 255, 255).data(),
                part.data(),
                0,
                0,
            ),
        }
    }
}

/// What is plain of a byte of the canvas that a screenshot was brought to:
/// a screenshot of the canvas's size is kept; otherwise the canvas is white
/// outside of the screenshot and under its fully transparent pixels, and
/// holds the screenshot's own bytes under its opaque pixels. Nothing is
/// said of a byte under a pixel that is partly transparent.
pub open spec fn settled_byte(captured: RasterView, col: int, row: int, c: int) -> Option<u8> {
    if captured.width == CANVAS_WIDTH && captured.height == CANVAS_HEIGHT {
        Some(byte_at(captured, col, row, c))
    } else if col >= captured.width || row >= captured.height {
        Some(255u8)
    } else if byte_at(captured, col, row, 3) == 255 {
        Some(byte_at(captured, col, row, c))
    } else if byte_at(captured, col, row, 3) == 0 {
        Some(255u8)
    } else {
        None
    }
}

proof fn lemma_cropped_byte(picture: RasterView, width: u32, height: u32, col: int, row: int, c: int)
    requires
        width <= picture.width,
        height <= picture.height,
        0 <= col < width,
        0 <= row < height,
        0 <= c < 4,
    ensures
        byte_at(cropped(picture, 0, 0, width, height), col, row, c) == byte_at(picture, col, row, c),
{
    let w = width as int;
    let i = (row * w + col) * 4 + c;
    lemma_row_index(row * w + col, c, 4);
    lemma_row_index(row, col, w);
    assert((row * w + col) * 4 == 4 * (row * w + col)) by (nonlinear_arith);
    assert(row * w + col < w * height) by (nonlinear_arith)
        requires
            0 <= col < w,
            0 <= row < height,
    ;
    assert(0 <= row * w) by (nonlinear_arith)
        requires
            0 <= row,
            0 <= w,
    ;
    assert(i / 4 == row * w + col);
    assert(i % 4 == c);
    assert(0 <= i < w * height * 4);
}

/// Brings a captured screenshot to the canvas of 1920 by 1080 pixels,
/// whatever its own dimensions are.
pub fn normalize_screenshot(captured: Raster) -> (out: Raster)
    ensures
        out@ == normalized(captured@),
        out@.width == CANVAS_WIDTH,
        out@.height == CANVAS_HEIGHT,
        forall|col: int, row: int, c: int|
            0 <= col < CANVAS_WIDTH && 0 <= row < CANVAS_HEIGHT && 0 <= c < 4 ==> (settled_byte(
                captured@,
                col,
                row,
                c,
            ) matches Some(b) ==> #[trigger] byte_at(out@, col, row, c) == b),
{
    if captured.width() == CANVAS_WIDTH && captured.height() == CANVAS_HEIGHT {
        captured
    } else {
        let canvas = from_pixel(CANVAS_WIDTH, CANVAS_HEIGHT, 255, 255, 255, 255);
        let width = if captured.width() <= CANVAS_WIDTH {
            captured.width()
        } else {
            CANVAS_WIDTH
        };
        let height = if captured.height() <= CANVAS_HEIGHT {
            captured.height()
        } else {
            CANVAS_HEIGHT
        };
        let part = crop(&captured, 0, 0, width, height);
        let ghost white = canvas@;
        let out = overlay(canvas, &part, 0, 0);
        proof {
            assert forall|col: int, row: int, c: int|
                0 <= col < CANVAS_WIDTH && 0 <= row < CANVAS_HEIGHT && 0 <= c < 4 implies (
            settled_byte(captured@, col, row, c) matches Some(b) ==> #[trigger] byte_at(
                out@,
                col,
                row,
                c,
            ) == b) by {
                assert(0 <= (row * 1920 + col) * 4 + c < 1920 * 1080 * 4);
                assert(byte_at(white, col, row, c) == 255);
                if col < width && row < height {
                    lemma_cropped_byte(captured@, width, height, col, row, c);
                    lemma_cropped_byte(captured@, width, height, col, row, 3);
                }
                assert(laid_byte(white, part@, col, row, c) matches Some(b) ==> byte_at(
                    out@,
                    col,
                    row,
                    c,
                ) == b);
            }
        }
        out
    }
}

/// The result of decoding and normalizing a screenshot, given what the
/// codec made of its bytes.
pub open spec fn screenshot_of(decoded: Option<(u32, u32, Seq<u8>)>) -> Option<RasterView> {
    match decoded {
        Some(data) => Some(normalized(RasterView::of(data))),
        None => None,
    }
}

/// Decodes the PNG bytes of a captured screenshot and brings the picture to
/// the canvas. Fails with `MediaError::Image` exactly when the bytes cannot
/// be decoded.
pub fn process_screenshot(png: &[u8]) -> (result: Result<Raster, MediaError>)
    ensures
        match result {
            Ok(picture) => screenshot_of(decoded_png(png@)) == Some(picture@) && picture@.width
                == CANVAS_WIDTH && picture@.height == CANVAS_HEIGHT && forall|
                col: int,
                row: int,
                c: int,
            |
                0 <= col < CANVAS_WIDTH && 0 <= row < CANVAS_HEIGHT && 0 <= c < 4 ==> (settled_byte(
                    RasterView::of(decoded_png(png@).unwrap()),
                    col,
                    row,
                    c,
                ) matches Some(b) ==> #[trigger] byte_at(picture@, col, row, c) == b),
            Err(error) => decoded_png(png@) is None && error is Image,
        },
{
    match load_png_from_memory(png) {
        Ok(captured) => Ok(normalize_screenshot(captured)),
        Err(error) => Err(MediaError::Image(image_error_text(&error))),
    }
}

/// Decodes the bytes of an image attachment. Fails with `MediaError::Image`
/// exactly when the bytes are no raster image that the codec recognises.
pub fn decode_image(bytes: &[u8]) -> (result: Result<Raster, MediaError>)
    ensures
        match result {
            Ok(picture) => decoded_image(bytes@) == Some(picture@.data()),
            Err(error) => decoded_image(bytes@) is None && error is Image,
        },
{
    match load_from_memory(bytes) {
        Ok(picture) => Ok(picture),
        Err(error) => Err(MediaError::Image(image_error_text(&error))),
    }
}

} // verus!
