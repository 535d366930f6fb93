//! The in-memory image that stands between decoding and encoding.
use vstd::prelude::*;

verus! {

/// The largest number of pixels a decoded image may hold (64 Mi pixels,
/// 256 MiB as RGBA). Larger images are refused before they are decoded.
pub const MAX_PIXELS: u64 = 67108864;

/// How pixels are laid out in a buffer handed to an encoder.
#[derive(Clone, Copy, Debug, PartialEq, Eq, Structural)]
pub enum PixelLayout {
    /// Three bytes per pixel: red, green, blue.
    Rgb8,
    /// Four bytes per pixel: red, green, blue, alpha.
    Rgba8,
}

impl PixelLayout {
    /// Bytes per pixel.
    pub open spec fn channels(self) -> nat {
        match self {
            PixelLayout::Rgb8 => 3,
            PixelLayout::Rgba8 => 4,
        }
    }

    /// The canonical RGBA pixels `rgba` laid out in this layout.
    pub open spec fn arrange(self, rgba: Seq<u8>) -> Seq<u8> {
        match self {
            PixelLayout::Rgb8 => rgb_of(rgba),
            PixelLayout::Rgba8 => rgba,
        }
    }
}

/// The RGBA pixels `rgba` with the alpha byte of each pixel left out.
pub open spec fn rgb_of(rgba: Seq<u8>) -> Seq<u8> {
    Seq::new(
        (rgba.len() / 4 * 3) as nat,
        |i: int| rgba[4 * (i / 3) + i % 3],
    )
}

/// Whether `width` by `height` pixels stays within `MAX_PIXELS`.
pub open spec fn pixel_count_allowed(width: u32, height: u32) -> bool {
    width as int * height as int <= MAX_PIXELS as int
}

/// Whether the parts form a canonical image: both dimensions non-zero,
/// the pixel count within bounds, and four bytes for each pixel.
pub open spec fn valid_parts(width: u32, height: u32, pixels: Seq<u8>) -> bool {
    &&& width > 0
    &&& height > 0
    &&& pixel_count_allowed(width, height)
    &&& pixels.len() == 4 * (width as int * height as int)
}

/// A decoded image: its dimensions and its pixels as RGBA, row by row.
#[derive(Clone, Debug)]
pub struct CanonicalImage {
    pub width: u32,
    pub height: u32,
    pub pixels: Vec<u8>,
}

impl View for CanonicalImage {
    type V = (u32, u32, Seq<u8>);

    open spec fn view(&self) -> (u32, u32, Seq<u8>) {
        (self.width, self.height, self.pixels@)
    }
}

impl CanonicalImage {
    /// Whether this is a valid canonical image.
    pub open spec fn wf(&self) -> bool {
        valid_parts(self.width, self.height, self.pixels@)
    }

    /// The canonical image made of these parts, or `None` where they do not
    /// form one.
    pub fn from_parts(width: u32, height: u32, pixels: Vec<u8>) -> (r: Option<CanonicalImage>)
        ensures
            r is Some <==> valid_parts(width, height, pixels@),
            r matches Some(img) ==> img@ == (width, height, pixels@),
    {
        if is_valid_parts(width, height, &pixels) {
            Some(CanonicalImage { width, height, pixels })
        } else {
            None
        }
    }
}

/// Whether `width` by `height` pixels stays within `MAX_PIXELS`.
pub fn within_pixel_limit(width: u32, height: u32) -> (r: bool)
    ensures
        r == pixel_count_allowed(width, height),
{
    assert(width as u64 * height as u64 <= u32::MAX as u64 * u32::MAX as u64) by (nonlinear_arith)
        requires
            width <= u32::MAX,
            height <= u32::MAX,
    ;
    (width as u64) * (height as u64) <= MAX_PIXELS
}

/// Whether the parts form a canonical image.
pub fn is_valid_parts(width: u32, height: u32, pixels: &Vec<u8>) -> (r: bool)
    ensures
        r == valid_parts(width, height, pixels@),
{
    if width == 0 || height == 0 || !within_pixel_limit(width, height) {
        return false;
    }
    let count = (width as u64) * (height as u64);
    (pixels.len() as u64) / 4 == count && (pixels.len() as u64) % 4 == 0
}

/// The RGBA pixels with each pixel's alpha byte left out.
pub fn drop_alpha(rgba: &Vec<u8>) -> (r: Vec<u8>)
    requires
        rgba@.len() % 4 == 0,
    ensures
        r@ == rgb_of(rgba@),
{
    let len: usize = rgba.len();
    let n: usize = len / 4;
    let mut out: Vec<u8> = Vec::new();
    let mut p: usize = 0;
    while p < n
        invariant
            len == rgba@.len(),
            4 * n == len,
            0 <= p <= n,
            out@.len() == 3 * p,
            forall|j: int| 0 <= j < out@.len() ==> out@[j] == rgba@[4 * (j / 3) + j % 3],
        decreases n - p,
    {
        out.push(rgba[4 * p]);
        out.push(rgba[4 * p + 1]);
        out.push(rgba[4 * p + 2]);
        p = p + 1;
    }
    assert(out@ =~= rgb_of(rgba@));
    out
}

} // verus!
