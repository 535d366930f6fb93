//! The calls into the `image` crate that decode and encode, with the
//! contracts this library relies on.
use vstd::prelude::*;

use crate::canonical::PixelLayout;
use crate::error::FailureCause;
use crate::format::ImageFormat;

verus! {

#[verifier::external_type_specification]
#[verifier::external_body]
pub struct ExImageError(image::ImageError);

/// The dimensions that the header of `bytes` declares when read as
/// `format`, or `None` where the header does not read.
pub uninterp spec fn header_dimensions(bytes: Seq<u8>, format: ImageFormat) -> Option<(u32, u32)>;

/// The width, height and RGBA pixels of `bytes` decoded as `format`, or
/// `None` where they do not decode.
pub uninterp spec fn decoded_pixels(bytes: Seq<u8>, format: ImageFormat) -> Option<(u32, u32, Seq<u8>)>;

/// The bytes of the image `pixels` (laid out as `layout`, `width` by
/// `height`) encoded as `format`, or `None` where the encoder refuses it.
pub uninterp spec fn encoded_bytes(
    pixels: Seq<u8>,
    width: u32,
    height: u32,
    layout: PixelLayout,
    format: ImageFormat,
) -> Option<Seq<u8>>;

/// Relies on `image::ImageReader::into_dimensions`, on a reader made with
/// `ImageReader::with_format`: it reads the header of `bytes` as `format`
/// alone, without decoding the pixels, and depends on its arguments alone.
#[verifier::external_body]
pub(crate) fn read_dimensions(bytes: &[u8], format: ImageFormat) -> (r: Result<(u32, u32), image::ImageError>)
    ensures
        r is Ok <==> header_dimensions(bytes@, format) is Some,
        r is Ok ==> r->Ok_0 == header_dimensions(bytes@, format)->Some_0,
{
    let format = match format {
        ImageFormat::Png => image::ImageFormat::Png,
        ImageFormat::Jpeg => image::ImageFormat::Jpeg,
    };
    image::ImageReader::with_format(std::io::Cursor::new(bytes), format).into_dimensions()
}

/// Relies on `image::load_from_memory_with_format`: it decodes `bytes` as
/// `format` only (no guessing), and depends on its arguments alone. The
/// result is taken as RGBA bytes through `DynamicImage::into_rgba8`.
#[verifier::external_body]
pub(crate) fn decode_rgba(bytes: &[u8], format: ImageFormat) -> (r: Result<(u32, u32, Vec<u8>), image::ImageError>)
    ensures
        r is Ok <==> decoded_pixels(bytes@, format) is Some,
        r matches Ok((w, h, px)) ==> decoded_pixels(bytes@, format) == Some((w, h, px@)),
{
    let format = match format {
        ImageFormat::Png => image::ImageFormat::Png,
        ImageFormat::Jpeg => image::ImageFormat::Jpeg,
    };
    let rgba = image::load_from_memory_with_format(bytes, format)?.into_rgba8();
    Ok((rgba.width(), rgba.height(), rgba.into_raw()))
}

/// Relies on `image::write_buffer_with_format`, writing into an in-memory
/// buffer: it encodes `pixels` as `format` and depends on its arguments
/// alone. It panics unless `pixels` holds exactly one pixel's bytes for each
/// of the `width * height` pixels. JPEG is written at the encoder's default
/// quality, 75.
#[verifier::external_body]
pub(crate) fn encode_pixels(
    pixels: &[u8],
    width: u32,
    height: u32,
    layout: PixelLayout,
    format: ImageFormat,
) -> (r: Result<Vec<u8>, image::ImageError>)
    requires
        pixels@.len() == width as int * height as int * layout.channels(),
    ensures
        r is Ok <==> encoded_bytes(pixels@, width, height, layout, format) is Some,
        r is Ok ==> r->Ok_0@ == encoded_bytes(pixels@, width, height, layout, format)->Some_0,
{
    let color = match layout {
        PixelLayout::Rgb8 => image::ExtendedColorType::Rgb8,
        PixelLayout::Rgba8 => image::ExtendedColorType::Rgba8,
    };
    let format = match format {
        ImageFormat::Png => image::ImageFormat::Png,
        ImageFormat::Jpeg => image::ImageFormat::Jpeg,
    };
    let mut out = std::io::Cursor::new(Vec::new());
    image::write_buffer_with_format(&mut out, pixels, width, height, color, format)?;
    Ok(out.into_inner())
}

/// Relies on the variants of `image::ImageError`: each kind of failure the
/// crate reports is named by the matching cause.
#[verifier::external_body]
pub(crate) fn cause_of(e: &image::ImageError) -> FailureCause {
    match e {
        image::ImageError::Decoding(_) => FailureCause::Corrupt,
        image::ImageError::IoError(_) => FailureCause::Truncated,
        image::ImageError::Unsupported(_) => FailureCause::Unsupported,
        image::ImageError::Limits(_) => FailureCause::TooLarge,
        image::ImageError::Encoding(_) => FailureCause::Rejected,
        image::ImageError::Parameter(_) => FailureCause::Rejected,
    }
}

} // verus!
