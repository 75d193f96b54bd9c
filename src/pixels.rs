//! Decoded frames: an RGB pixel buffer and the decoding of frame files.

use vstd::prelude::*;
use crate::config::{extension_text, Extension};

verus! {

/// One pixel's color.
#[derive(Clone, Copy, Debug, PartialEq, Eq, Structural)]
pub struct Rgb {
    pub r: u8,
    pub g: u8,
    pub b: u8,
}

/// What a pixel buffer holds: its size and its bytes, three per pixel, row by
/// row.
pub struct PixelView {
    pub width: u32,
    pub height: u32,
    pub data: Seq<u8>,
}

/// A buffer is well formed when it has at least one pixel each way and exactly
/// three bytes per pixel.
pub open spec fn pixels_wf(v: PixelView) -> bool {
    &&& v.width >= 1
    &&& v.height >= 1
    &&& v.data.len() == 3 * (v.width as int) * (v.height as int)
}

/// The pixel at column `x`, row `y`.
pub open spec fn pixel_at(v: PixelView, x: int, y: int) -> Rgb {
    let i = 3 * (y * v.width + x);
    Rgb { r: v.data[i], g: v.data[i + 1], b: v.data[i + 2] }
}

/// An immutable decoded frame.
pub struct PixelBuffer {
    width: u32,
    height: u32,
    data: Vec<u8>,
}

impl View for PixelBuffer {
    type V = PixelView;

    closed spec fn view(&self) -> PixelView {
        PixelView { width: self.width, height: self.height, data: self.data@ }
    }
}

/// Why a frame could not be had.
#[derive(Clone, Copy, Debug, PartialEq, Eq, Structural)]
pub enum FrameError {
    /// The bytes are not an image of the expected format.
    Decode,
    /// The image decoded to no pixels.
    Empty,
}

proof fn lemma_index_bound(w: u32, h: u32, x: u32, y: u32)
    requires
        x < w,
        y < h,
    ensures
        3 * ((y as int) * (w as int) + (x as int)) + 2 < 3 * (w as int) * (h as int),
{
    assert((y as int) * (w as int) + (x as int) < (w as int) * (h as int)) by (nonlinear_arith)
        requires
            x < w,
            y < h,
    ;
    assert(3 * ((y as int) * (w as int) + (x as int)) + 2 < 3 * (w as int) * (h as int))
        by (nonlinear_arith)
        requires
            (y as int) * (w as int) + (x as int) < (w as int) * (h as int),
    ;
}

impl PixelBuffer {
    /// A buffer from its size and raw RGB bytes, or `None` unless the size is
    /// at least one pixel each way and the bytes hold exactly three per pixel.
    pub fn from_rgb(width: u32, height: u32, data: Vec<u8>) -> (r: Option<PixelBuffer>)
        ensures
            pixels_wf(PixelView { width, height, data: data@ }) <==> r is Some,
            r matches Some(b) ==> b@ == (PixelView { width, height, data: data@ }),
    {
        if width == 0 || height == 0 {
            return None;
        }
        let n = data.len() as u64;
        proof {
            assert((width as int) * (height as int) <= 0xffff_ffff * 0xffff_ffff) by (nonlinear_arith)
                requires
                    width <= 0xffff_ffff,
                    height <= 0xffff_ffff,
            ;
        }
        let area = (width as u64) * (height as u64);
        proof {
            if pixels_wf(PixelView { width, height, data: data@ }) {
                assert(n % 3 == 0 && area == n / 3) by (nonlinear_arith)
                    requires
                        area == (width as int) * (height as int),
                        n == 3 * (width as int) * (height as int),
                ;
            }
        }
        if n % 3 != 0 || area != n / 3 {
            return None;
        }
        assert(data@.len() == 3 * (width as int) * (height as int)) by (nonlinear_arith)
            requires
                area == (width as int) * (height as int),
                n == data@.len(),
                n % 3 == 0,
                area == n / 3,
        ;
        Some(PixelBuffer { width, height, data })
    }

    pub fn width(&self) -> (r: u32)
        ensures
            r == self@.width,
    {
        self.width
    }

    pub fn height(&self) -> (r: u32)
        ensures
            r == self@.height,
    {
        self.height
    }

    /// The pixel at column `x`, row `y`.
    pub fn pixel(&self, x: u32, y: u32) -> (r: Rgb)
        requires
            pixels_wf(self@),
            x < self@.width,
            y < self@.height,
        ensures
            r == pixel_at(self@, x as int, y as int),
    {
        proof {
            lemma_index_bound(self.width, self.height, x, y);
            let (w, yy) = (self.width as int, y as int);
            assert(0 <= yy * w) by (nonlinear_arith)
                requires
                    0 <= yy,
                    0 <= w,
            ;
            assert(3 * (w as int) * (self.height as int) == self.data@.len());
        }
        let len = self.data.len();
        let i = 3 * ((y as usize) * (self.width as usize) + (x as usize));
        assert(i + 2 < len);
        Rgb { r: self.data[i], g: self.data[i + 1], b: self.data[i + 2] }
    }
}

/// What image's decoder makes of `bytes` read as a file with suffix `suffix`:
/// the width, the height and the RGB bytes, or nothing.
pub uninterp spec fn decoded_rgb(bytes: Seq<u8>, suffix: Seq<char>) -> Option<(u32, u32, Seq<u8>)>;

/// Relies on image's `load_from_memory_with_format` to decode `bytes` in the
/// format of the suffix, and on `DynamicImage::to_rgb8` and
/// `ImageBuffer::into_raw` to hand out its size and its pixels as RGB bytes.
/// The result depends on the bytes and the format alone: JPEG goes through
/// jpeg-decoder built with `platform_independent`, which runs the same
/// routines on every machine.
#[verifier::external_body]
fn decode_rgb(bytes: &[u8], ext: Extension) -> (r: Option<(u32, u32, Vec<u8>)>)
    ensures
        decoded_view(r) == decoded_rgb(bytes@, extension_text(ext)),
{
    let format = match ext {
        Extension::Bmp => image::ImageFormat::Bmp,
        Extension::Jpg => image::ImageFormat::Jpeg,
        Extension::Jpeg => image::ImageFormat::Jpeg,
        Extension::Png => image::ImageFormat::Png,
    };
    match image::load_from_memory_with_format(bytes, format) {
        Ok(img) => {
            let rgb = img.to_rgb8();
            Some((rgb.width(), rgb.height(), rgb.into_raw()))
        },
        Err(_) => None,
    }
}

/// The frame made of what a decoder handed out: its width, its height and its
/// RGB bytes, or nothing when the bytes did not decode.
pub open spec fn checked_frame(decoded: Option<(u32, u32, Seq<u8>)>) -> Result<PixelView, FrameError> {
    match decoded {
        None => Err(FrameError::Decode),
        Some((w, h, data)) => if w == 0 || h == 0 {
            Err(FrameError::Empty)
        } else if pixels_wf(PixelView { width: w, height: h, data }) {
            Ok(PixelView { width: w, height: h, data })
        } else {
            Err(FrameError::Decode)
        },
    }
}

/// A decoder's result with its bytes as a sequence.
pub open spec fn decoded_view(d: Option<(u32, u32, Vec<u8>)>) -> Option<(u32, u32, Seq<u8>)> {
    match d {
        Some((w, h, data)) => Some((w, h, data@)),
        None => None,
    }
}

/// A frame result with the buffer as its view.
pub open spec fn result_view(r: Result<PixelBuffer, FrameError>) -> Result<PixelView, FrameError> {
    match r {
        Ok(b) => Ok(b@),
        Err(e) => Err(e),
    }
}

/// Checks what a decoder handed out: an image with no pixels is `Empty`, and
/// a size that does not fit the bytes is `Decode`, as are bytes that did not
/// decode.
pub fn frame_from_decoded(decoded: Option<(u32, u32, Vec<u8>)>) -> (r: Result<PixelBuffer, FrameError>)
    ensures
        result_view(r) == checked_frame(decoded_view(decoded)),
{
    match decoded {
        Some((w, h, data)) => {
            if w == 0 || h == 0 {
                return Err(FrameError::Empty);
            }
            match PixelBuffer::from_rgb(w, h, data) {
                Some(b) => Ok(b),
                None => Err(FrameError::Decode),
            }
        },
        None => Err(FrameError::Decode),
    }
}

/// A frame file that the decoder reads as an image of at least one pixel each
/// way, with three bytes per pixel, gives a frame: decoding succeeds, with the
/// decoder's size, which is positive.
pub proof fn lemma_decoded_frame_succeeds(bytes: Seq<u8>, suffix: Seq<char>)
    requires
        decoded_rgb(bytes, suffix) matches Some((w, h, data)) && pixels_wf(
            PixelView { width: w, height: h, data },
        ),
    ensures
        checked_frame(decoded_rgb(bytes, suffix)) matches Ok(v) && v.width >= 1 && v.height >= 1
            && decoded_rgb(bytes, suffix) == Some((v.width, v.height, v.data)),
{
}

/// Decodes the bytes of one frame file in format `ext` and checks the result
/// with `frame_from_decoded`. A frame that decodes is a well-formed buffer
/// with at least one pixel each way.
pub fn decode_frame(bytes: &[u8], ext: Extension) -> (r: Result<PixelBuffer, FrameError>)
    ensures
        result_view(r) == checked_frame(decoded_rgb(bytes@, extension_text(ext))),
        r matches Ok(b) ==> pixels_wf(b@),
{
    frame_from_decoded(decode_rgb(bytes, ext))
}

/// The sRGB-weighted intensity of a color, as image computes it for 8-bit
/// channels.
pub open spec fn luma(p: Rgb) -> int {
    (2126 * p.r + 7152 * p.g + 722 * p.b) / 10000
}

/// The intensity of a color: the sRGB-weighted sum
/// `(2126 r + 7152 g + 722 b) / 10000`, as image's `Pixel::to_luma` computes it
/// for 8-bit channels.
pub fn rgb_luma(p: Rgb) -> (r: u8)
    ensures
        r == luma(p),
{
    let sum: u32 = 2126 * (p.r as u32) + 7152 * (p.g as u32) + 722 * (p.b as u32);
    (sum / 10000) as u8
}

} // verus!
