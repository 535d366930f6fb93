//! The failures a conversion can end in.
use vstd::prelude::*;

use crate::format::ImageFormat;

verus! {

/// Why a codec gave up on its input.
#[derive(Clone, Copy, Debug, PartialEq, Eq, Structural)]
pub enum FailureCause {
    /// The bytes do not follow the format's structure.
    Corrupt,
    /// The stream ended before the image did.
    Truncated,
    /// The format or one of its color modes is not handled by the codec.
    Unsupported,
    /// The image is larger than this library or the codec allows.
    TooLarge,
    /// The codec refused the pixel data it was given.
    Rejected,
}

/// The failure of a conversion request.
#[derive(Clone, Copy, Debug, PartialEq, Eq, Structural)]
pub enum ConversionError {
    /// The declared media type of the upload is not registered.
    UnsupportedSourceType,
    /// The requested media type of the result is not registered.
    UnsupportedTargetType,
    /// The upload holds no bytes.
    EmptyPayload,
    /// The upload does not decode as its declared format, or is too large.
    DecodeError { format: ImageFormat, cause: FailureCause },
    /// The decoded image could not be written in the requested format.
    EncodeError { format: ImageFormat, cause: FailureCause },
}

impl ConversionError {
    /// Whether the client's request is at fault (as opposed to the server).
    pub open spec fn is_client_error(self) -> bool {
        !(self is EncodeError)
    }

    /// The HTTP status that reports this failure: 400 where the request is
    /// at fault, 500 where encoding a validated image failed.
    pub fn http_status(&self) -> (r: u16)
        ensures
            self.is_client_error() ==> r == 400,
            !self.is_client_error() ==> r == 500,
    {
        match self {
            ConversionError::EncodeError { .. } => 500,
            _ => 400,
        }
    }

    /// A stable code naming the kind of failure, safe to show to a client.
    pub fn code(&self) -> (r: &'static str)
        ensures
            r@ == self.code_text(),
    {
        match self {
            ConversionError::UnsupportedSourceType => "unsupported_source_type",
            ConversionError::UnsupportedTargetType => "unsupported_target_type",
            ConversionError::EmptyPayload => "empty_payload",
            ConversionError::DecodeError { .. } => "decode_error",
            ConversionError::EncodeError { .. } => "encode_error",
        }
    }

    /// The stable code of each kind of failure.
    pub open spec fn code_text(self) -> Seq<char> {
        match self {
            ConversionError::UnsupportedSourceType => "unsupported_source_type"@,
            ConversionError::UnsupportedTargetType => "unsupported_target_type"@,
            ConversionError::EmptyPayload => "empty_payload"@,
            ConversionError::DecodeError { .. } => "decode_error"@,
            ConversionError::EncodeError { .. } => "encode_error"@,
        }
    }
}

} // verus!
