//! Decoding, encoding, and the conversion of one upload.
use vstd::prelude::*;

use crate::canonical::{
    drop_alpha, pixel_count_allowed, valid_parts, within_pixel_limit, CanonicalImage, PixelLayout,
};
use crate::codec::{
    cause_of, decode_rgba, decoded_pixels, encode_pixels, encoded_bytes, header_dimensions,
    read_dimensions,
};
use crate::error::{ConversionError, FailureCause};
use crate::format::{format_for, resolve, ImageFormat};

verus! {

/// The canonical image that non-empty `bytes` decode to as `format`, or
/// `None` where decoding fails: the header must read and declare at most
/// `MAX_PIXELS` pixels, and the decoded pixels must form a canonical image.
pub open spec fn decode_outcome(bytes: Seq<u8>, format: ImageFormat) -> Option<(u32, u32, Seq<u8>)> {
    let header = header_dimensions(bytes, format);
    let image = decoded_pixels(bytes, format);
    if header is Some && pixel_count_allowed(header->Some_0.0, header->Some_0.1) && image is Some
        && valid_parts(image->Some_0.0, image->Some_0.1, image->Some_0.2) {
        image
    } else {
        None
    }
}

/// The bytes of the canonical image `image` encoded as `format`, in the
/// pixel layout that format takes, or `None` where the encoder refuses it.
pub open spec fn encode_outcome(image: (u32, u32, Seq<u8>), format: ImageFormat) -> Option<Seq<u8>> {
    encoded_bytes(format.layout().arrange(image.2), image.0, image.1, format.layout(), format)
}

/// Whether the header of `bytes`, read as `format`, declares more than
/// `MAX_PIXELS` pixels.
pub open spec fn header_over_limit(bytes: Seq<u8>, format: ImageFormat) -> bool {
    let header = header_dimensions(bytes, format);
    header is Some && !pixel_count_allowed(header->Some_0.0, header->Some_0.1)
}

/// Whether `e` is a decoding failure of `format`.
pub open spec fn is_decode_error(e: ConversionError, format: ImageFormat) -> bool {
    e matches ConversionError::DecodeError { format: f, .. } && f == format
}

/// Whether `e` is an encoding failure of `format`.
pub open spec fn is_encode_error(e: ConversionError, format: ImageFormat) -> bool {
    e matches ConversionError::EncodeError { format: f, .. } && f == format
}

/// Decodes `bytes` as `format` into a canonical image. Empty input is an
/// `EmptyPayload`; a header that does not read, declares too many pixels,
/// or pixels that do not decode are a `DecodeError` of `format`.
pub fn decode(bytes: &[u8], format: ImageFormat) -> (r: Result<CanonicalImage, ConversionError>)
    ensures
        bytes@.len() == 0 ==> r == Err::<CanonicalImage, ConversionError>(ConversionError::EmptyPayload),
        bytes@.len() > 0 ==> (r is Ok <==> decode_outcome(bytes@, format) is Some),
        r matches Ok(img) ==> img.wf() && img@ == decode_outcome(bytes@, format)->Some_0,
        bytes@.len() > 0 && r is Err ==> is_decode_error(r->Err_0, format),
        bytes@.len() > 0 && header_over_limit(bytes@, format) ==> r == Err::<
            CanonicalImage,
            ConversionError,
        >(
            ConversionError::DecodeError { format, cause: FailureCause::TooLarge },
        ),
{
    if bytes.len() == 0 {
        return Err(ConversionError::EmptyPayload);
    }
    match read_dimensions(bytes, format) {
        Err(e) => {
            return Err(ConversionError::DecodeError { format, cause: cause_of(&e) });
        },
        Ok((width, height)) => {
            if !within_pixel_limit(width, height) {
                return Err(ConversionError::DecodeError { format, cause: FailureCause::TooLarge });
            }
        },
    }
    match decode_rgba(bytes, format) {
        Err(e) => Err(ConversionError::DecodeError { format, cause: cause_of(&e) }),
        Ok((width, height, pixels)) => {
            let too_large = !within_pixel_limit(width, height);
            match CanonicalImage::from_parts(width, height, pixels) {
                Some(image) => Ok(image),
                None => {
                    let cause = if too_large {
                        FailureCause::TooLarge
                    } else {
                        FailureCause::Corrupt
                    };
                    Err(ConversionError::DecodeError { format, cause })
                },
            }
        },
    }
}

/// Encodes the canonical image `image` as `format`. PNG is given the RGBA
/// pixels as they are and written losslessly; JPEG is given them without
/// alpha and written at the encoder's default quality, 75 of 100.
pub fn encode(image: &CanonicalImage, format: ImageFormat) -> (r: Result<Vec<u8>, ConversionError>)
    requires
        image.wf(),
    ensures
        r is Ok <==> encode_outcome(image@, format) is Some,
        r matches Ok(out) ==> out@ == encode_outcome(image@, format)->Some_0,
        r matches Err(e) ==> is_encode_error(e, format),
{
    let layout = format.pixel_layout();
    let encoded = match layout {
        PixelLayout::Rgba8 => {
            assert(image.pixels@.len() == image.width as int * image.height as int * 4);
            encode_pixels(image.pixels.as_slice(), image.width, image.height, layout, format)
        },
        PixelLayout::Rgb8 => {
            let rgb = drop_alpha(&image.pixels);
            assert(rgb@.len() == image.width as int * image.height as int * 3);
            encode_pixels(rgb.as_slice(), image.width, image.height, layout, format)
        },
    };
    match encoded {
        Ok(out) => Ok(out),
        Err(e) => Err(ConversionError::EncodeError { format, cause: cause_of(&e) }),
    }
}

/// The encoded image and the media type it is sent with.
#[derive(Clone, Debug)]
pub struct Converted {
    pub bytes: Vec<u8>,
    pub content_type: &'static str,
}

/// The result of a conversion, as values.
pub open spec fn outcome_view(r: Result<Converted, ConversionError>) -> Result<
    (Seq<u8>, Seq<char>),
    ConversionError,
> {
    match r {
        Ok(c) => Ok((c.bytes@, c.content_type@)),
        Err(e) => Err(e),
    }
}

/// Whether `r` is what converting `bytes`, declared as `declared`, to the
/// media type `target` comes to. The declared type is resolved first, then
/// the target; an empty upload is refused before decoding; a failure of a
/// step ends the conversion with that step's error.
pub open spec fn converts_to(
    bytes: Seq<u8>,
    declared: Seq<char>,
    target: Seq<char>,
    r: Result<(Seq<u8>, Seq<char>), ConversionError>,
) -> bool {
    match format_for(declared) {
        None => r == Err::<(Seq<u8>, Seq<char>), ConversionError>(
            ConversionError::UnsupportedSourceType,
        ),
        Some(source) => match format_for(target) {
            None => r == Err::<(Seq<u8>, Seq<char>), ConversionError>(
                ConversionError::UnsupportedTargetType,
            ),
            Some(goal) => if bytes.len() == 0 {
                r == Err::<(Seq<u8>, Seq<char>), ConversionError>(ConversionError::EmptyPayload)
            } else {
                match decode_outcome(bytes, source) {
                    None => r is Err && is_decode_error(r->Err_0, source),
                    Some(image) => match encode_outcome(image, goal) {
                        None => r is Err && is_encode_error(r->Err_0, goal),
                        Some(out) => r == Ok::<(Seq<u8>, Seq<char>), ConversionError>(
                            (out, goal.mime()),
                        ),
                    },
                }
            },
        },
    }
}

/// Converts the upload `bytes`, declared as the media type `declared_type`,
/// to the media type `target_type`.
pub fn convert(bytes: &[u8], declared_type: &str, target_type: &str) -> (r: Result<
    Converted,
    ConversionError,
>)
    ensures
        converts_to(bytes@, declared_type@, target_type@, outcome_view(r)),
{
    let source = match resolve(declared_type) {
        Ok(f) => f,
        Err(_) => {
            return Err(ConversionError::UnsupportedSourceType);
        },
    };
    let goal = match resolve(target_type) {
        Ok(f) => f,
        Err(_) => {
            return Err(ConversionError::UnsupportedTargetType);
        },
    };
    let image = match decode(bytes, source) {
        Ok(image) => image,
        Err(e) => {
            return Err(e);
        },
    };
    match encode(&image, goal) {
        Ok(out) => Ok(Converted { bytes: out, content_type: goal.mime_type() }),
        Err(e) => Err(e),
    }
}

/// Converting the same bytes to the same target twice gives the same
/// result: both succeed or both fail, and two successes carry byte-identical
/// output with the same media type.
pub proof fn lemma_conversion_idempotent(
    bytes: Seq<u8>,
    declared: Seq<char>,
    target: Seq<char>,
    first: Result<(Seq<u8>, Seq<char>), ConversionError>,
    second: Result<(Seq<u8>, Seq<char>), ConversionError>,
)
    requires
        converts_to(bytes, declared, target, first),
        converts_to(bytes, declared, target, second),
    ensures
        first is Ok <==> second is Ok,
        first is Ok ==> first == second,
{
}

/// A declared media type that is not registered ends the conversion with
/// `UnsupportedSourceType`, whatever the bytes and the target.
pub proof fn lemma_unregistered_source_refused(
    bytes: Seq<u8>,
    declared: Seq<char>,
    target: Seq<char>,
    r: Result<(Seq<u8>, Seq<char>), ConversionError>,
)
    requires
        format_for(declared) is None,
        converts_to(bytes, declared, target, r),
    ensures
        r == Err::<(Seq<u8>, Seq<char>), ConversionError>(ConversionError::UnsupportedSourceType),
{
}

/// An empty upload of a registered type, to a registered target, ends the
/// conversion with `EmptyPayload`, never with a `DecodeError`.
pub proof fn lemma_empty_upload_refused(
    declared: Seq<char>,
    target: Seq<char>,
    r: Result<(Seq<u8>, Seq<char>), ConversionError>,
)
    requires
        format_for(declared) is Some,
        format_for(target) is Some,
        converts_to(Seq::empty(), declared, target, r),
    ensures
        r == Err::<(Seq<u8>, Seq<char>), ConversionError>(ConversionError::EmptyPayload),
{
}

} // verus!
