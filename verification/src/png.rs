//! PNG files of bitmaps.
use vstd::prelude::*;
use crate::ipc_protocol::PixelFormat;
use crate::text::opt_bytes;

verus! {

/// `image::ImageError`, why an image could not be encoded; opaque here.
#[verifier::external_type_specification]
#[verifier::external_body]
pub struct ExImageError(image::ImageError);

/// The PNG file that `DynamicImage::write_to` makes of RGBA pixels; `None` where it fails.
pub uninterp spec fn png_file(width: u32, height: u32, pixels: Seq<u8>) -> Option<Seq<u8>>;

/// `DynamicImage::write_to` of RGBA pixels as PNG; what it writes is called [`png_file`].
#[verifier::external_body]
pub(crate) fn encode_png(width: u32, height: u32, pixels: Vec<u8>) -> (r: Result<
    Vec<u8>,
    image::ImageError,
>)
    requires
        pixels@.len() == 4 * width * height,
        width > 0,
        height > 0,
    ensures
        match png_file(width, height, pixels@) {
            Some(b) => r is Ok && r->Ok_0@ == b,
            None => r is Err,
        },
{
    let buffer = image::RgbaImage::from_raw(width, height, pixels).unwrap_or_default();
    let mut out = Vec::new();
    let mut cursor = std::io::Cursor::new(&mut out);
    image::DynamicImage::ImageRgba8(buffer).write_to(&mut cursor, image::ImageFormat::Png)?;
    Ok(out)
}

/// `ImageError::to_string`; nothing is claimed of the text.
#[verifier::external_body]
pub(crate) fn image_error_text(e: &image::ImageError) -> String {
    e.to_string()
}

/// Whether a pixel is four bytes, one for each channel.
pub open spec fn byte_channels(format: PixelFormat) -> bool {
    format is Rgba8888 || format is Bgra8888 || format is Rgbx8888 || format is Bgrx8888
}

/// One byte of pixels in RGBA order: blue and red change places where the format has blue first,
/// and a format without alpha is opaque.
pub open spec fn rgba_byte(format: PixelFormat, bytes: Seq<u8>, i: int) -> u8 {
    let blue_first = format is Bgra8888 || format is Bgrx8888;
    let opaque = format is Rgbx8888 || format is Bgrx8888;
    if i % 4 == 3 && opaque {
        0xFF
    } else if i % 4 == 0 && blue_first {
        bytes[i + 2]
    } else if i % 4 == 2 && blue_first {
        bytes[i - 2]
    } else {
        bytes[i]
    }
}

/// Pixels in RGBA order.
pub open spec fn rgba(format: PixelFormat, bytes: Seq<u8>) -> Seq<u8> {
    Seq::new(bytes.len(), |i: int| rgba_byte(format, bytes, i))
}

/// Whether bytes hold a bitmap of four byte channels: there are pixels, a row fits its stride, and
/// the last row is whole.
pub open spec fn is_bitmap(
    width: u32,
    height: u32,
    stride: u32,
    format: PixelFormat,
    bytes: Seq<u8>,
) -> bool {
    &&& width > 0
    &&& height > 0
    &&& byte_channels(format)
    &&& 4 * width <= stride
    &&& stride * (height - 1) + 4 * width <= bytes.len()
}

/// The rows of a bitmap without their padding.
pub open spec fn unpadded(width: u32, height: u32, stride: u32, bytes: Seq<u8>) -> Seq<u8> {
    Seq::new(
        (4 * width * height) as nat,
        |i: int| bytes[(i / (4 * width)) * stride + i % (4 * width)],
    )
}

/// The PNG file of a bitmap; `None` where the encoder fails.
pub open spec fn bitmap_file(
    width: u32,
    height: u32,
    stride: u32,
    format: PixelFormat,
    bytes: Seq<u8>,
) -> Option<Seq<u8>> {
    png_file(width, height, rgba(format, unpadded(width, height, stride, bytes)))
}

/// The rows of a bitmap without padding are its bytes.
pub proof fn tight_rows_stay(width: u32, height: u32, stride: u32, bytes: Seq<u8>)
    requires
        width > 0,
        stride == 4 * width,
        bytes.len() == 4 * width * height,
    ensures
        unpadded(width, height, stride, bytes) == bytes,
{
    let row = 4 * width as int;
    assert forall|i: int| 0 <= i < bytes.len() implies unpadded(width, height, stride, bytes)[i]
        == bytes[i] by {
        assert((i / row) * row + i % row == i) by (nonlinear_arith)
            requires
                row > 0,
        ;
    }
    assert(unpadded(width, height, stride, bytes) =~= bytes);
}

/// Takes the padding out of the rows of a bitmap.
pub fn unpad(width: u32, height: u32, stride: u32, format: PixelFormat, bytes: Vec<u8>) -> (r: Vec<
    u8,
>)
    requires
        is_bitmap(width, height, stride, format, bytes@),
    ensures
        r@ == unpadded(width, height, stride, bytes@),
{
    let ghost row = 4 * width as int;
    let ghost full = unpadded(width, height, stride, bytes@);
    let mut out: Vec<u8> = Vec::new();
    let mut y: u32 = 0;
    let mut start: usize = 0;
    proof {
        assert(row * height == 4 * width * height) by (nonlinear_arith)
            requires
                row == 4 * width,
        ;
        assert(stride * (height - 1) >= 0) by (nonlinear_arith)
            requires
                height >= 1,
                stride >= 0,
        ;
        assert(4 * width <= usize::MAX);
        assert(full.take(0) =~= out@);
        assert(row * 0 == 0);
    }
    let row_len: usize = width as usize * 4;
    while y < height
        invariant
            y <= height,
            row == 4 * width,
            row_len == row,
            row > 0,
            full == unpadded(width, height, stride, bytes@),
            full.len() == row * height,
            is_bitmap(width, height, stride, format, bytes@),
            out@ == full.take(row * y),
            y < height ==> start == stride * y,
        decreases height - y,
    {
        proof {
            assert(stride * y + row <= bytes.len()) by (nonlinear_arith)
                requires
                    0 <= y <= height - 1,
                    stride >= 0,
                    stride * (height - 1) + row <= bytes.len(),
            ;
            assert(row * y + row <= row * height) by (nonlinear_arith)
                requires
                    row > 0,
                    y + 1 <= height,
            ;
            assert(row * y >= 0) by (nonlinear_arith)
                requires
                    row > 0,
                    y >= 0,
            ;
        }
        let ghost before = out@;
        let piece = &bytes.as_slice()[start..start + row_len];
        out.extend_from_slice(piece);
        proof {
            assert(row * (y + 1) == row * y + row) by (nonlinear_arith);
            assert forall|j: int| 0 <= j < row implies piece@[j] == full[row * y + j] by {
                assert((row * y + j) / row == y && (row * y + j) % row == j) by (nonlinear_arith)
                    requires
                        0 <= j < row,
                ;
                assert(y * stride == stride * y) by (nonlinear_arith);
            }
            assert(out@ =~= full.take(row * (y + 1)));
        }
        y += 1;
        if y < height {
            proof {
                assert(stride * y == stride * (y - 1) + stride) by (nonlinear_arith);
                assert(stride * y <= stride * (height - 1)) by (nonlinear_arith)
                    requires
                        y <= height - 1,
                        stride >= 0,
                ;
            }
            start = start + stride as usize;
        }
    }
    proof {
        assert(full.take(row * height) =~= full);
    }
    out
}

/// Brings pixels into RGBA order.
pub fn to_rgba(format: PixelFormat, bytes: Vec<u8>) -> (r: Vec<u8>)
    requires
        byte_channels(format),
        bytes@.len() % 4 == 0,
    ensures
        r@ == rgba(format, bytes@),
{
    let blue_first = matches!(format, PixelFormat::Bgra8888 | PixelFormat::Bgrx8888);
    let opaque = matches!(format, PixelFormat::Rgbx8888 | PixelFormat::Bgrx8888);
    if !blue_first && !opaque {
        proof {
            assert(bytes@ =~= rgba(format, bytes@));
        }
        return bytes;
    }
    let mut out: Vec<u8> = Vec::new();
    let mut i: usize = 0;
    while i < bytes.len()
        invariant
            i <= bytes.len(),
            bytes@.len() % 4 == 0,
            blue_first == (format is Bgra8888 || format is Bgrx8888),
            opaque == (format is Rgbx8888 || format is Bgrx8888),
            out@ =~= rgba(format, bytes@).take(i as int),
        decreases bytes.len() - i,
    {
        let b: u8 = if i % 4 == 3 && opaque {
            0xFF
        } else if i % 4 == 0 && blue_first {
            bytes[i + 2]
        } else if i % 4 == 2 && blue_first {
            bytes[i - 2]
        } else {
            bytes[i]
        };
        out.push(b);
        i += 1;
    }
    out
}

/// Tells whether bytes hold a bitmap of four byte channels.
pub fn holds_bitmap(
    width: u32,
    height: u32,
    stride: u32,
    format: PixelFormat,
    bytes: &Vec<u8>,
) -> (b: bool)
    ensures
        b == is_bitmap(width, height, stride, format, bytes@),
{
    let readable = matches!(
        format,
        PixelFormat::Rgba8888 | PixelFormat::Bgra8888 | PixelFormat::Rgbx8888
            | PixelFormat::Bgrx8888
    );
    if !readable || width == 0 || height == 0 || 4 * width as u64 > stride as u64 {
        return false;
    }
    proof {
        assert(0 <= stride * (height - 1) <= 0xFFFF_FFFF * 0xFFFF_FFFF) by (nonlinear_arith)
            requires
                0 <= stride <= 0xFFFF_FFFF,
                1 <= height <= 0xFFFF_FFFF,
        ;
    }
    let size: u128 = stride as u128 * (height - 1) as u128 + 4 * width as u128;
    size <= bytes.len() as u128
}

/// Encodes a bitmap as PNG.
pub fn encode_bitmap(
    width: u32,
    height: u32,
    stride: u32,
    format: PixelFormat,
    bytes: Vec<u8>,
) -> (r: Option<Vec<u8>>)
    requires
        is_bitmap(width, height, stride, format, bytes@),
    ensures
        opt_bytes(r) == bitmap_file(width, height, stride, format, bytes@),
{
    let tight = unpad(width, height, stride, format, bytes);
    proof {
        assert(4 * width * height == 4 * (width * height)) by (nonlinear_arith);
        assert(width * height >= 0) by (nonlinear_arith);
    }
    let pixels = to_rgba(format, tight);
    match encode_png(width, height, pixels) {
        Ok(b) => Some(b),
        Err(_) => None,
    }
}

} // verus!
