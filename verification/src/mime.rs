//! Recognition of an image format by the signature at the start of its bytes.

use vstd::prelude::*;

verus! {

/// The image formats that are recognized by signature.
#[derive(Clone, Copy, Debug, PartialEq, Eq, Structural)]
pub enum ImageFormat {
    Png,
    Jpeg,
    Gif,
    WebP,
    Bmp,
    Icon,
}

/// Whether `pattern` stands in `bytes` at offset `at`.
pub open spec fn has_bytes_at(bytes: Seq<u8>, at: int, pattern: Seq<u8>) -> bool {
    &&& 0 <= at
    &&& at + pattern.len() <= bytes.len()
    &&& bytes.subrange(at, at + pattern.len()) == pattern
}

/// The format whose signature `bytes` starts with, if any:
/// PNG by its eight-byte signature, JPEG by `FF D8 FF`, GIF by `GIF87a` or
/// `GIF89a`, WebP by `RIFF`, four bytes of length and `WEBPVP`, BMP by `BM`,
/// and a Windows icon or cursor by `00 00 01 00` or `00 00 02 00`.
pub open spec fn sniffed_format(bytes: Seq<u8>) -> Option<ImageFormat> {
    if has_bytes_at(bytes, 0, seq![0x89u8, 0x50u8, 0x4Eu8, 0x47u8, 0x0Du8, 0x0Au8, 0x1Au8, 0x0Au8]) {
        Some(ImageFormat::Png)
    } else if has_bytes_at(bytes, 0, seq![0xFFu8, 0xD8u8, 0xFFu8]) {
        Some(ImageFormat::Jpeg)
    } else if has_bytes_at(bytes, 0, seq![0x47u8, 0x49u8, 0x46u8, 0x38u8, 0x37u8, 0x61u8])
        || has_bytes_at(bytes, 0, seq![0x47u8, 0x49u8, 0x46u8, 0x38u8, 0x39u8, 0x61u8]) {
        Some(ImageFormat::Gif)
    } else if has_bytes_at(bytes, 0, seq![0x52u8, 0x49u8, 0x46u8, 0x46u8]) && has_bytes_at(
        bytes,
        8,
        seq![0x57u8, 0x45u8, 0x42u8, 0x50u8, 0x56u8, 0x50u8],
    ) {
        Some(ImageFormat::WebP)
    } else if has_bytes_at(bytes, 0, seq![0x42u8, 0x4Du8]) {
        Some(ImageFormat::Bmp)
    } else if has_bytes_at(bytes, 0, seq![0x00u8, 0x00u8, 0x01u8, 0x00u8]) || has_bytes_at(
        bytes,
        0,
        seq![0x00u8, 0x00u8, 0x02u8, 0x00u8],
    ) {
        Some(ImageFormat::Icon)
    } else {
        None
    }
}

/// The MIME type of a format.
pub open spec fn mime_text(format: ImageFormat) -> Seq<char> {
    match format {
        ImageFormat::Png => "image/png"@,
        ImageFormat::Jpeg => "image/jpeg"@,
        ImageFormat::Gif => "image/gif"@,
        ImageFormat::WebP => "image/webp"@,
        ImageFormat::Bmp => "image/bmp"@,
        ImageFormat::Icon => "image/x-icon"@,
    }
}

/// The MIME type of vector images.
pub open spec fn svg_mime_text() -> Seq<char> {
    "image/svg+xml"@
}

impl ImageFormat {
    /// The MIME type of the format.
    pub fn mime_type(&self) -> (mime: &'static str)
        ensures
            mime@ == mime_text(*self),
    {
        match self {
            ImageFormat::Png => "image/png",
            ImageFormat::Jpeg => "image/jpeg",
            ImageFormat::Gif => "image/gif",
            ImageFormat::WebP => "image/webp",
            ImageFormat::Bmp => "image/bmp",
            ImageFormat::Icon => "image/x-icon",
        }
    }
}

/// Tests whether `pattern` stands in `bytes` at offset `at`.
fn matches_at(bytes: &[u8], at: usize, pattern: &[u8]) -> (found: bool)
    requires
        at + pattern@.len() <= usize::MAX,
    ensures
        found == has_bytes_at(bytes@, at as int, pattern@),
{
    if bytes.len() < at || bytes.len() - at < pattern.len() {
        return false;
    }
    let mut i: usize = 0;
    while i < pattern.len()
        invariant
            i <= pattern.len(),
            at + pattern.len() <= bytes.len(),
            forall|k: int| 0 <= k < i ==> bytes@[at + k] == pattern@[k],
        decreases pattern.len() - i,
    {
        if bytes[at + i] != pattern[i] {
            assert(bytes@.subrange(at as int, at + pattern@.len())[i as int] != pattern@[i as int]);
            return false;
        }
        i += 1;
    }
    assert(bytes@.subrange(at as int, at + pattern@.len()) =~= pattern@);
    true
}

/// Recognizes the image format of `bytes` by its signature.
pub fn image_format(bytes: &[u8]) -> (format: Option<ImageFormat>)
    ensures
        format == sniffed_format(bytes@),
{
    let png: [u8; 8] = [0x89, 0x50, 0x4E, 0x47, 0x0D, 0x0A, 0x1A, 0x0A];
    let jpeg: [u8; 3] = [0xFF, 0xD8, 0xFF];
    let gif87: [u8; 6] = [0x47, 0x49, 0x46, 0x38, 0x37, 0x61];
    let gif89: [u8; 6] = [0x47, 0x49, 0x46, 0x38, 0x39, 0x61];
    let riff: [u8; 4] = [0x52, 0x49, 0x46, 0x46];
    let webp: [u8; 6] = [0x57, 0x45, 0x42, 0x50, 0x56, 0x50];
    let bmp: [u8; 2] = [0x42, 0x4D];
    let icon: [u8; 4] = [0x00, 0x00, 0x01, 0x00];
    let cursor: [u8; 4] = [0x00, 0x00, 0x02, 0x00];
    proof {
        assert(png@ =~= seq![0x89u8, 0x50u8, 0x4Eu8, 0x47u8, 0x0Du8, 0x0Au8, 0x1Au8, 0x0Au8]);
        assert(jpeg@ =~= seq![0xFFu8, 0xD8u8, 0xFFu8]);
        assert(gif87@ =~= seq![0x47u8, 0x49u8, 0x46u8, 0x38u8, 0x37u8, 0x61u8]);
        assert(gif89@ =~= seq![0x47u8, 0x49u8, 0x46u8, 0x38u8, 0x39u8, 0x61u8]);
        assert(riff@ =~= seq![0x52u8, 0x49u8, 0x46u8, 0x46u8]);
        assert(webp@ =~= seq![0x57u8, 0x45u8, 0x42u8, 0x50u8, 0x56u8, 0x50u8]);
        assert(bmp@ =~= seq![0x42u8, 0x4Du8]);
        assert(icon@ =~= seq![0x00u8, 0x00u8, 0x01u8, 0x00u8]);
        assert(cursor@ =~= seq![0x00u8, 0x00u8, 0x02u8, 0x00u8]);
    }
    if matches_at(bytes, 0, png.as_slice()) {
        Some(ImageFormat::Png)
    } else if matches_at(bytes, 0, jpeg.as_slice()) {
        Some(ImageFormat::Jpeg)
    } else if matches_at(bytes, 0, gif87.as_slice()) || matches_at(bytes, 0, gif89.as_slice()) {
        Some(ImageFormat::Gif)
    } else if matches_at(bytes, 0, riff.as_slice()) && matches_at(bytes, 8, webp.as_slice()) {
        Some(ImageFormat::WebP)
    } else if matches_at(bytes, 0, bmp.as_slice()) {
        Some(ImageFormat::Bmp)
    } else if matches_at(bytes, 0, icon.as_slice()) || matches_at(bytes, 0, cursor.as_slice()) {
        Some(ImageFormat::Icon)
    } else {
        None
    }
}

/// The MIME type of the image that `bytes` holds, if its format is
/// recognized.
pub fn image_mime_type(bytes: &[u8]) -> (mime: Option<&'static str>)
    ensures
        match sniffed_format(bytes@) {
            Some(format) => mime is Some && mime->0@ == mime_text(format),
            None => mime is None,
        },
{
    match image_format(bytes) {
        Some(format) => Some(format.mime_type()),
        None => None,
    }
}

} // verus!
