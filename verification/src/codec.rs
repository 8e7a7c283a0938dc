//! Images as they travel through a timeline: PNG files in base64 text.
//!
//! The encodings themselves are the work of the `base64` and `image` crates.
//! What they compute is named here and not proved.

use vstd::prelude::*;
use base64::Engine;

verus! {

/// The standard, padded base64 text of `bytes`.
pub uninterp spec fn base64_text(bytes: Seq<u8>) -> Seq<char>;

/// The bytes that standard, padded base64 `text` stands for, or none if the
/// text is no such encoding.
pub uninterp spec fn base64_bytes(text: Seq<char>) -> Option<Seq<u8>>;

/// The PNG file of an image of `width` by `height` pixels, given as rows of
/// red, green, blue and alpha bytes, or none if the encoder refuses the image.
pub uninterp spec fn png_file(width: u32, height: u32, rgba: Seq<u8>) -> Option<Seq<u8>>;

/// Calls `encode` of `base64`'s `STANDARD` engine. Not proved: the text that
/// comes back is `base64_text` of the bytes. The call panics when the length
/// of the text does not fit in `usize`, so such inputs are left out.
#[verifier::external_body]
pub(crate) fn encode_base64(bytes: &Vec<u8>) -> (text: String)
    requires
        (bytes.len() / 3 + 1) * 4 <= usize::MAX,
    ensures
        text@ == base64_text(bytes@),
{
    base64::engine::general_purpose::STANDARD.encode(bytes)
}

/// Calls `decode` of `base64`'s `STANDARD` engine. Not proved: the bytes that
/// come back are `base64_bytes` of the text, and there are none exactly when
/// the engine reports an error.
#[verifier::external_body]
pub(crate) fn decode_base64(text: &str) -> (bytes: Option<Vec<u8>>)
    ensures
        match bytes {
            Some(decoded) => base64_bytes(text@) == Some(decoded@),
            None => base64_bytes(text@) is None,
        },
{
    base64::engine::general_purpose::STANDARD.decode(text).ok()
}

/// Calls `RgbaImage::from_raw` and `DynamicImage::write_to` of `image` with the
/// PNG format. Not proved: the file that comes back is `png_file` of the
/// image, and there is none exactly when the encoder reports an error. The
/// encoder panics on a buffer that is longer than the image, and `from_raw`
/// refuses a shorter one, so the buffer must hold exactly four bytes per pixel.
#[verifier::external_body]
pub(crate) fn encode_png_rgba8(width: u32, height: u32, rgba: Vec<u8>) -> (file: Option<Vec<u8>>)
    requires
        rgba.len() == 4 * (width as int) * (height as int),
    ensures
        match file {
            Some(encoded) => png_file(width, height, rgba@) == Some(encoded@),
            None => png_file(width, height, rgba@) is None,
        },
{
    let pixels = image::RgbaImage::from_raw(width, height, rgba)?;
    let mut encoded = Vec::new();
    let mut sink = std::io::Cursor::new(&mut encoded);
    image::DynamicImage::ImageRgba8(pixels).write_to(&mut sink, image::ImageFormat::Png).ok()?;
    Some(encoded)
}

} // verus!
