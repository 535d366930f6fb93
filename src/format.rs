//! The registry of supported raster formats and their media types.
use vstd::prelude::*;

use crate::canonical::PixelLayout;

verus! {

/// A raster format that the library can both decode and encode.
#[derive(Clone, Copy, Debug, PartialEq, Eq, Structural)]
pub enum ImageFormat {
    Png,
    Jpeg,
}

impl ImageFormat {
    /// The media type registered for this format.
    pub open spec fn mime(self) -> Seq<char> {
        match self {
            ImageFormat::Png => "image/png"@,
            ImageFormat::Jpeg => "image/jpeg"@,
        }
    }

    /// The media type registered for this format, as sent in a
    /// `Content-Type` header.
    pub fn mime_type(self) -> (r: &'static str)
        ensures
            r@ == self.mime(),
    {
        match self {
            ImageFormat::Png => "image/png",
            ImageFormat::Jpeg => "image/jpeg",
        }
    }

    /// The pixel layout this format's encoder is given: JPEG has no alpha
    /// channel.
    pub open spec fn layout(self) -> PixelLayout {
        match self {
            ImageFormat::Png => PixelLayout::Rgba8,
            ImageFormat::Jpeg => PixelLayout::Rgb8,
        }
    }

    /// The pixel layout this format's encoder is given.
    pub fn pixel_layout(self) -> (r: PixelLayout)
        ensures
            r == self.layout(),
    {
        match self {
            ImageFormat::Png => PixelLayout::Rgba8,
            ImageFormat::Jpeg => PixelLayout::Rgb8,
        }
    }
}

/// Every registered format, in lookup order.
pub open spec fn registered() -> Seq<ImageFormat> {
    seq![ImageFormat::Png, ImageFormat::Jpeg]
}

/// The format whose media type is exactly `content_type`, if one is
/// registered. Matching is case-sensitive and takes no parameters.
pub open spec fn format_for(content_type: Seq<char>) -> Option<ImageFormat> {
    if content_type == ImageFormat::Png.mime() {
        Some(ImageFormat::Png)
    } else if content_type == ImageFormat::Jpeg.mime() {
        Some(ImageFormat::Jpeg)
    } else {
        None
    }
}

/// The registered media types are distinct, so a media type names at most
/// one format.
pub proof fn lemma_mime_types_distinct()
    ensures
        ImageFormat::Png.mime() != ImageFormat::Jpeg.mime(),
{
    reveal_strlit("image/png");
    reveal_strlit("image/jpeg");
    assert(ImageFormat::Png.mime()[6] != ImageFormat::Jpeg.mime()[6]);
}

/// A media type that no registered format answers to.
#[derive(Clone, Debug)]
pub struct Unsupported {
    /// The media type as it was received.
    pub content_type: String,
}

/// The registered formats, in lookup order.
pub fn registry() -> (r: Vec<ImageFormat>)
    ensures
        r@ == registered(),
{
    let r = vec![ImageFormat::Png, ImageFormat::Jpeg];
    assert(r@ =~= registered());
    r
}

/// Looks `content_type` up in the registry by exact match.
pub fn resolve(content_type: &str) -> (r: Result<ImageFormat, Unsupported>)
    ensures
        format_for(content_type@) is Some ==> r == Ok::<ImageFormat, Unsupported>(
            format_for(content_type@)->Some_0,
        ),
        format_for(content_type@) is None ==> (r matches Err(u) && u.content_type@
            == content_type@),
{
    proof {
        lemma_mime_types_distinct();
    }
    let wanted = content_type.to_owned();
    let formats = registry();
    let mut i: usize = 0;
    while i < formats.len()
        invariant
            formats@ == registered(),
            wanted@ == content_type@,
            0 <= i <= formats.len(),
            forall|j: int| 0 <= j < i ==> formats@[j].mime() != content_type@,
        decreases formats.len() - i,
    {
        let f = formats[i];
        let name = f.mime_type().to_owned();
        if name == wanted {
            return Ok(f);
        }
        i = i + 1;
    }
    assert(formats@[0].mime() != content_type@);
    assert(formats@[1].mime() != content_type@);
    Err(Unsupported { content_type: wanted })
}

} // verus!
