//! Screenshot frames: pixel layouts turned into RGBA, the image formats
//! offered, and when a capture is retried.

use vstd::prelude::*;
use crate::text::{
    concat2, has_substring, lowercase, str_contains, str_eq, to_lowercase, to_uppercase, uppercase,
};

verus! {

/// Attempts made to capture a frame while the stream warms up.
pub const MAX_CAPTURE_ATTEMPTS: u32 = 8;

/// Milliseconds between two capture attempts.
pub const CAPTURE_RETRY_DELAY_MS: u64 = 500;

/// The pixel layouts a frame can arrive in.
pub enum PixelLayout {
    /// Blue, green, red, alpha.
    Bgra,
    /// Blue, green, red, unused.
    Bgrx,
    /// Red, green, blue, alpha (or unused): already what images take.
    Rgba,
}

/// The layout a frame format names, compared upper-cased: `BGRA`, `BGRX`,
/// `RGBA` or `RGBX`.
pub open spec fn layout_of(format: Seq<char>) -> Option<PixelLayout> {
    let f = uppercase(format);
    if f == "BGRA"@ {
        Some(PixelLayout::Bgra)
    } else if f == "BGRX"@ {
        Some(PixelLayout::Bgrx)
    } else if f == "RGBA"@ || f == "RGBX"@ {
        Some(PixelLayout::Rgba)
    } else {
        None
    }
}

/// The layout a frame format names.
pub fn pixel_layout(format: &str) -> (r: Option<PixelLayout>)
    ensures
        r == layout_of(format@),
{
    let f = to_uppercase(format);
    if str_eq(f.as_str(), "BGRA") {
        Some(PixelLayout::Bgra)
    } else if str_eq(f.as_str(), "BGRX") {
        Some(PixelLayout::Bgrx)
    } else if str_eq(f.as_str(), "RGBA") || str_eq(f.as_str(), "RGBX") {
        Some(PixelLayout::Rgba)
    } else {
        None
    }
}

/// Pixel `q` of a blue-first frame in red-first order: red, green, blue, then
/// the frame's fourth byte or, where given, a fixed alpha.
pub open spec fn swapped_pixel(d: Seq<u8>, q: int, alpha: Option<u8>) -> Seq<u8> {
    seq![
        d[4 * q + 2],
        d[4 * q + 1],
        d[4 * q],
        match alpha {
            Some(a) => a,
            None => d[4 * q + 3],
        },
    ]
}

/// The RGBA bytes of a frame: each complete 4-byte pixel of a blue-first
/// layout reordered (a trailing partial pixel is dropped), or the bytes as
/// they are for a red-first layout.
pub fn to_rgba(layout: &PixelLayout, data: &Vec<u8>) -> (r: Vec<u8>)
    ensures
        match layout {
            PixelLayout::Rgba => r@ == data@,
            _ => {
                &&& r@.len() == 4 * (data@.len() / 4)
                &&& forall|q: int|
                    0 <= q < data@.len() / 4 ==> #[trigger] r@.subrange(4 * q, 4 * q + 4)
                        == swapped_pixel(
                        data@,
                        q,
                        if *layout is Bgrx {
                            Some(255u8)
                        } else {
                            None
                        },
                    )
            },
        },
{
    match layout {
        PixelLayout::Rgba => {
            let mut out: Vec<u8> = Vec::new();
            let mut i: usize = 0;
            while i < data.len()
                invariant
                    i <= data@.len(),
                    out@ == data@.subrange(0, i as int),
                decreases data.len() - i,
            {
                out.push(data[i]);
                i = i + 1;
                assert(out@ =~= data@.subrange(0, i as int));
            }
            assert(data@.subrange(0, data@.len() as int) =~= data@);
            out
        },
        _ => {
            let opaque = match layout {
                PixelLayout::Bgrx => true,
                _ => false,
            };
            let ghost alpha = if opaque {
                Some(255u8)
            } else {
                None
            };
            let len = data.len();
            let n = len / 4;
            let mut out: Vec<u8> = Vec::new();
            let mut q: usize = 0;
            while q < n
                invariant
                    q <= n,
                    len == data@.len(),
                    n == len / 4,
                    out@.len() == 4 * q,
                    alpha == if opaque {
                        Some(255u8)
                    } else {
                        None::<u8>
                    },
                    forall|k: int|
                        0 <= k < q ==> #[trigger] out@.subrange(4 * k, 4 * k + 4) == swapped_pixel(
                            data@,
                            k,
                            alpha,
                        ),
                decreases n - q,
            {
                let b = 4 * q;
                let ghost before = out@;
                out.push(data[b + 2]);
                out.push(data[b + 1]);
                out.push(data[b]);
                if opaque {
                    out.push(255u8);
                } else {
                    out.push(data[b + 3]);
                }
                proof {
                    assert forall|k: int| 0 <= k < q + 1 implies #[trigger] out@.subrange(
                        4 * k,
                        4 * k + 4,
                    ) == swapped_pixel(data@, k, alpha) by {
                        if k < q {
                            assert(out@.subrange(4 * k, 4 * k + 4) =~= before.subrange(
                                4 * k,
                                4 * k + 4,
                            ));
                        } else {
                            assert(out@.subrange(4 * k, 4 * k + 4) =~= swapped_pixel(
                                data@,
                                k,
                                alpha,
                            ));
                        }
                    }
                }
                q = q + 1;
            }
            out
        },
    }
}

/// A captured frame: its bytes, size and pixel format name.
pub struct Frame {
    pub data: Vec<u8>,
    pub width: u32,
    pub height: u32,
    pub format: String,
}

/// The RGBA bytes of a captured frame, or the message for an unsupported
/// pixel format.
pub fn frame_rgba(frame: &Frame) -> (r: Result<Vec<u8>, String>)
    ensures
        match layout_of(frame.format@) {
            Some(l) => r matches Ok(bytes) && match l {
                PixelLayout::Rgba => bytes@ == frame.data@,
                _ => bytes@.len() == 4 * (frame.data@.len() / 4) && forall|q: int|
                    0 <= q < frame.data@.len() / 4 ==> #[trigger] bytes@.subrange(4 * q, 4 * q + 4)
                        == swapped_pixel(
                        frame.data@,
                        q,
                        if l is Bgrx {
                            Some(255u8)
                        } else {
                            None
                        },
                    ),
            },
            None => r matches Err(m) && m@ == "Unsupported pixel format: "@ + frame.format@,
        },
{
    match pixel_layout(frame.format.as_str()) {
        Some(l) => Ok(to_rgba(&l, &frame.data)),
        None => Err(unsupported_pixel_format_message(frame.format.as_str())),
    }
}

/// The message for a frame format that is not supported.
pub fn unsupported_pixel_format_message(format: &str) -> (r: String)
    ensures
        r@ == "Unsupported pixel format: "@ + format@,
{
    concat2("Unsupported pixel format: ", format)
}

/// The image encodings offered.
pub enum ImageEncoding {
    Png,
    Jpeg,
}

/// The encoding a requested format names, compared lower-cased: `png`, or
/// `jpeg` / `jpg`.
pub open spec fn encoding_of(format: Seq<char>) -> Option<ImageEncoding> {
    let f = lowercase(format);
    if f == "png"@ {
        Some(ImageEncoding::Png)
    } else if f == "jpeg"@ || f == "jpg"@ {
        Some(ImageEncoding::Jpeg)
    } else {
        None
    }
}

/// The encoding a requested format names.
pub fn image_encoding(format: &str) -> (r: Option<ImageEncoding>)
    ensures
        r == encoding_of(format@),
{
    let f = to_lowercase(format);
    if str_eq(f.as_str(), "png") {
        Some(ImageEncoding::Png)
    } else if str_eq(f.as_str(), "jpeg") || str_eq(f.as_str(), "jpg") {
        Some(ImageEncoding::Jpeg)
    } else {
        None
    }
}

/// The name of an encoding as reported with the image.
pub fn encoding_name(e: &ImageEncoding) -> (r: &'static str)
    ensures
        r@ == match e {
            ImageEncoding::Png => "png"@,
            ImageEncoding::Jpeg => "jpeg"@,
        },
{
    match e {
        ImageEncoding::Png => "png",
        ImageEncoding::Jpeg => "jpeg",
    }
}

/// Whether a failed capture is tried again: the stream is still warming up
/// (the error says no frame is available) and attempts are left.
pub fn retry_capture(error: &str, attempt: u32) -> (r: bool)
    ensures
        r == (has_substring(error@, "No frame available"@) && attempt < MAX_CAPTURE_ATTEMPTS),
{
    str_contains(error, "No frame available") && attempt < MAX_CAPTURE_ATTEMPTS
}

} // verus!
