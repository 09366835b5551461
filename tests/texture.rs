use tile_renderer::texture::{load_texture, prepare_texture, SourceImage, TextureError};

fn pixel(data: &[u8], w: u32, col: u32, row: u32) -> [u8; 4] {
    let i = 4 * (row * w + col) as usize;
    [data[i], data[i + 1], data[i + 2], data[i + 3]]
}

#[test]
fn checkerboard_rows_are_reversed() {
    let red = [255u8, 0, 0, 255];
    let green = [0u8, 255, 0, 255];
    let blue = [0u8, 0, 255, 255];
    let yellow = [255u8, 255, 0, 255];
    let pixels = [red, green, blue, yellow].concat();
    let img = SourceImage { width: 2, height: 2, pixels };
    let t = prepare_texture(&img).unwrap();
    assert_eq!((t.width, t.height), (2, 2));
    assert_eq!(t.texels, [blue, yellow, red, green].concat());
}

#[test]
fn texture_corners_match_source_corners() {
    let pixels: Vec<u8> = (0u8..24).collect();
    let img = SourceImage { width: 3, height: 2, pixels: pixels.clone() };
    let t = prepare_texture(&img).unwrap();
    // the top-left vertex samples (u, v) = (0, 1), the bottom-right one (1, 0)
    assert_eq!(pixel(&t.texels, 3, 0, 1), pixel(&pixels, 3, 0, 0));
    assert_eq!(pixel(&t.texels, 3, 2, 0), pixel(&pixels, 3, 2, 1));
    assert_eq!(pixel(&t.texels, 3, 2, 1), pixel(&pixels, 3, 2, 0));
    assert_eq!(pixel(&t.texels, 3, 0, 0), pixel(&pixels, 3, 0, 1));
}

#[test]
fn single_row_is_unchanged() {
    let img = SourceImage { width: 2, height: 1, pixels: vec![1, 2, 3, 4, 5, 6, 7, 8] };
    assert_eq!(prepare_texture(&img).unwrap().texels, vec![1, 2, 3, 4, 5, 6, 7, 8]);
}

#[test]
fn image_without_pixels_is_refused() {
    let img = SourceImage { width: 0, height: 3, pixels: vec![] };
    assert_eq!(prepare_texture(&img).err(), Some(TextureError::Empty));
    let img = SourceImage { width: 3, height: 0, pixels: vec![] };
    assert_eq!(prepare_texture(&img).err(), Some(TextureError::Empty));
}

#[test]
fn bytes_that_are_no_jpeg_are_refused() {
    assert_eq!(load_texture(b"not an image").err(), Some(TextureError::Decode));
    assert_eq!(load_texture(&[]).err(), Some(TextureError::Decode));
}

#[test]
fn jpeg_is_decoded_to_rgba() {
    let (w, h) = (4u32, 3u32);
    let rgb: Vec<u8> = (0..w * h).flat_map(|i| [(i * 20) as u8, 128, 64]).collect();
    let mut bytes = Vec::new();
    image::codecs::jpeg::JpegEncoder::new(&mut bytes)
        .encode(&rgb, w, h, image::ColorType::Rgb8)
        .unwrap();
    let t = load_texture(&bytes).unwrap();
    assert_eq!((t.width, t.height), (w, h));
    assert_eq!(t.texels.len(), 4 * 4 * 3);
    assert!(t.texels.chunks(4).all(|p| p[3] == 255));
}

#[test]
fn decoded_jpeg_rows_come_out_reversed() {
    // two rows of one flat colour each: the texture starts with the bottom row
    let (w, h) = (8u32, 16u32);
    let rgb: Vec<u8> = (0..w * h).flat_map(|i| if i < w * 8 { [250u8, 250, 250] } else { [5u8, 5, 5] }).collect();
    let mut bytes = Vec::new();
    image::codecs::jpeg::JpegEncoder::new_with_quality(&mut bytes, 100)
        .encode(&rgb, w, h, image::ColorType::Rgb8)
        .unwrap();
    let t = load_texture(&bytes).unwrap();
    assert!(t.texels[0] < 64);
    assert!(t.texels[t.texels.len() - 4] > 192);
}
