use mouse_recorder::patch::{
    capture_patch_png_base64, decode_image_file, encode_image_file, patch_of_file, swap_red_blue,
    PatchError,
};

#[test]
fn red_and_blue_are_swapped_pixel_by_pixel() {
    let mut bytes = vec![1, 2, 3, 4, 5, 6, 7, 8, 9, 10];
    swap_red_blue(&mut bytes);
    assert_eq!(bytes, vec![3, 2, 1, 4, 7, 6, 5, 8, 9, 10]);
    let mut none: Vec<u8> = Vec::new();
    swap_red_blue(&mut none);
    assert!(none.is_empty());
}

#[test]
fn image_file_text_is_base64() {
    assert_eq!(encode_image_file(&b"hello".to_vec()), Some("aGVsbG8=".to_string()));
    assert_eq!(encode_image_file(&Vec::new()), Some(String::new()));
    assert_eq!(decode_image_file("aGVsbG8="), Some(b"hello".to_vec()));
    assert_eq!(decode_image_file("not base64!"), None);
    assert_eq!(decode_image_file("aGVsbG8"), None);
}

#[test]
fn captured_square_becomes_a_png_with_red_and_blue_in_place() {
    let side = 16u32;
    let mut bgra = Vec::new();
    for i in 0..(side * side) {
        bgra.extend_from_slice(&[10, 20, (i % 200) as u8, 255]);
    }
    let text = capture_patch_png_base64(side, bgra).expect("a square of sixteen encodes");
    let file = decode_image_file(&text).expect("the text is base64");
    assert_eq!(&file[..8], &[0x89, b'P', b'N', b'G', 0x0d, 0x0a, 0x1a, 0x0a]);
    let image = image::load_from_memory(&file).expect("the file is a PNG").to_rgba8();
    assert_eq!((image.width(), image.height()), (16, 16));
    assert_eq!(image.get_pixel(0, 0).0, [0, 20, 10, 255]);
    assert_eq!(image.get_pixel(5, 1).0, [21, 20, 10, 255]);
}

#[test]
fn pixels_that_do_not_fill_the_square_are_refused() {
    assert_eq!(capture_patch_png_base64(16, vec![0; 16 * 16 * 4 - 1]), Err(PatchError::ImageBuffer));
    assert_eq!(capture_patch_png_base64(16, vec![0; 16 * 16 * 4 + 4]), Err(PatchError::ImageBuffer));
    assert_eq!(capture_patch_png_base64(u32::MAX, vec![0; 4]), Err(PatchError::ImageBuffer));
}

#[test]
fn a_square_without_pixels_is_refused_by_the_encoder() {
    assert_eq!(capture_patch_png_base64(0, Vec::new()), Err(PatchError::Encode));
}

#[test]
fn the_text_of_a_row_is_made_from_the_file_of_its_image() {
    assert_eq!(patch_of_file(Some(b"hello".to_vec())), Ok("aGVsbG8=".to_string()));
    assert_eq!(patch_of_file(Some(Vec::new())), Ok(String::new()));
    assert_eq!(patch_of_file(None), Err(PatchError::Encode));
}
