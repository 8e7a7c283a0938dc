//! Reference images: from the pixels of a captured square to the text that a
//! row carries, and back to the bytes that a matcher or a preview takes.

use vstd::prelude::*;
use crate::codec::{
    base64_bytes, base64_text, decode_base64, encode_base64, encode_png_rgba8, png_file,
};

verus! {

/// Why no image came of a captured square.
#[derive(Debug, Clone, Copy, PartialEq, Eq, Structural)]
pub enum PatchError {
    /// The pixels do not fill the square: there are not four bytes for each.
    ImageBuffer,
    /// The PNG encoder refused the image.
    Encode,
    /// The text of the image is too long to be held.
    TooLong,
}

/// Where byte `i` of a row of blue, green, red, alpha pixels is found in the
/// same row as red, green, blue, alpha.
pub open spec fn swapped_index(i: int) -> int {
    if i % 4 == 0 {
        i + 2
    } else if i % 4 == 2 {
        i - 2
    } else {
        i
    }
}

/// The bytes of `bytes` with the first and third byte of every four
/// exchanged. Bytes beyond the last whole four stay as they are.
pub open spec fn red_blue_swapped(bytes: Seq<u8>) -> Seq<u8> {
    Seq::new(
        bytes.len(),
        |i: int|
            if i < bytes.len() - bytes.len() % 4 {
                bytes[swapped_index(i)]
            } else {
                bytes[i]
            },
    )
}

/// Turns pixels of blue, green, red, alpha into red, green, blue, alpha.
pub fn swap_red_blue(bytes: &mut Vec<u8>)
    ensures
        final(bytes)@ == red_blue_swapped(old(bytes)@),
{
    let pixels = bytes.len() / 4;
    let mut k: usize = 0;
    while k < pixels
        invariant
            k <= pixels,
            pixels == old(bytes).len() / 4,
            bytes.len() == old(bytes).len(),
            forall|i: int| 0 <= i < 4 * k ==> #[trigger] bytes[i] == old(bytes)[swapped_index(i)],
            forall|i: int| 4 * k <= i < bytes.len() ==> #[trigger] bytes[i] == old(bytes)[i],
        decreases pixels - k,
    {
        let blue = bytes[4 * k];
        let red = bytes[4 * k + 2];
        bytes.set(4 * k, red);
        bytes.set(4 * k + 2, blue);
        k += 1;
    }
    assert(bytes@ =~= red_blue_swapped(old(bytes)@));
}

/// The text of the image of a square of `side` by `side` pixels, given as rows
/// of blue, green, red and alpha bytes: the base64 text of its PNG file.
pub open spec fn patch_png_base64(side: u32, bgra: Seq<u8>) -> Result<Seq<char>, PatchError> {
    if bgra.len() != 4 * side * side {
        Err(PatchError::ImageBuffer)
    } else {
        spec_patch_of_file(png_file(side, side, red_blue_swapped(bgra)))
    }
}

/// The text that a row carries for an image once it was written as a PNG
/// file: the base64 text of the file. There is none where the image could not
/// be written, and none where the text would be too long to be held.
pub open spec fn spec_patch_of_file(file: Option<Seq<u8>>) -> Result<Seq<char>, PatchError> {
    match file {
        None => Err(PatchError::Encode),
        Some(file) => if file.len() / 3 >= usize::MAX / 4 {
            Err(PatchError::TooLong)
        } else {
            Ok(base64_text(file))
        },
    }
}

/// The text of a row from the PNG file of its image, or from the news that
/// the image could not be written.
pub fn patch_of_file(file: Option<Vec<u8>>) -> (text: Result<String, PatchError>)
    ensures
        match (file, text) {
            (Some(bytes), Ok(encoded)) => spec_patch_of_file(Some(bytes@)) == Ok::<Seq<char>, PatchError>(encoded@),
            (Some(bytes), Err(error)) => spec_patch_of_file(Some(bytes@)) == Err::<Seq<char>, PatchError>(error),
            (None, Ok(_)) => false,
            (None, Err(error)) => error == PatchError::Encode,
        },
{
    match file {
        None => Err(PatchError::Encode),
        Some(file) => match encode_image_file(&file) {
            None => Err(PatchError::TooLong),
            Some(text) => Ok(text),
        },
    }
}

/// Makes the text that a row carries from the pixels of a captured square.
///
/// `side` is the side of the square in pixels and `bgra` holds its rows from
/// the top, each pixel as blue, green, red and alpha.
pub fn capture_patch_png_base64(side: u32, bgra: Vec<u8>) -> (text: Result<String, PatchError>)
    ensures
        match text {
            Ok(encoded) => patch_png_base64(side, bgra@) == Ok::<Seq<char>, PatchError>(encoded@),
            Err(error) => patch_png_base64(side, bgra@) == Err::<Seq<char>, PatchError>(error),
        },
{
    assert(side * side <= 0xffff_ffff * 0xffff_ffff) by (nonlinear_arith)
        requires
            0 <= side <= 0xffff_ffff,
    ;
    let pixels: u128 = (side as u128) * (side as u128);
    let wanted: u128 = 4u128 * pixels;
    assert(wanted == 4 * side * side) by (nonlinear_arith)
        requires
            wanted == 4 * pixels,
            pixels == side * side,
    ;
    if bgra.len() as u128 != wanted {
        return Err(PatchError::ImageBuffer);
    }
    let mut rgba = bgra;
    swap_red_blue(&mut rgba);
    patch_of_file(encode_png_rgba8(side, side, rgba))
}

/// The text that a row carries for an image file that is already encoded,
/// or none if the text would be too long to be held.
pub fn encode_image_file(file: &Vec<u8>) -> (text: Option<String>)
    ensures
        match text {
            Some(encoded) => file.len() / 3 < usize::MAX / 4 && encoded@ == base64_text(file@),
            None => file.len() / 3 >= usize::MAX / 4,
        },
{
    if file.len() / 3 >= usize::MAX / 4 {
        None
    } else {
        Some(encode_base64(file))
    }
}

/// The image file that the text of a row stands for, or none if the text is
/// no base64.
pub fn decode_image_file(text: &str) -> (file: Option<Vec<u8>>)
    ensures
        match file {
            Some(decoded) => base64_bytes(text@) == Some(decoded@),
            None => base64_bytes(text@) is None,
        },
{
    decode_base64(text)
}

} // verus!
