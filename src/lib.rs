//! Conversion of an uploaded raster image from one format to another.
//!
//! The declared media type of the upload selects the decoder, the decoded
//! pixels are held as a canonical RGBA buffer, and the requested media type
//! selects the encoder. Every failure comes back as a typed error.
pub mod canonical;
pub mod codec;
pub mod error;
pub mod format;
pub mod pipeline;
