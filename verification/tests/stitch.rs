use jm_downloader::{
    get_urls_with_block_num, process_img, stitch_img, DownloadFormat, ImageError, Pixel, RgbImage,
};

fn row_image(width: u32, rows: &[u8]) -> RgbImage {
    let mut pixels = Vec::new();
    for &v in rows {
        for x in 0..width as u8 {
            pixels.push(Pixel { r: v, g: x, b: 0 });
        }
    }
    RgbImage {
        width,
        height: rows.len() as u32,
        pixels,
    }
}

fn rows_of(img: &RgbImage) -> Vec<u8> {
    (0..img.height as usize)
        .map(|y| img.pixels[y * img.width as usize].r)
        .collect()
}

#[test]
fn stitch_reverses_bands_bottom_up() {
    // five rows in two bands: the bottom two bands [r2 r3 r4] and [r0 r1]
    // are written top-down, the first band absorbing the remainder row
    let src = row_image(2, &[0, 1, 2, 3, 4]);
    let dst = stitch_img(&src, 2);
    assert_eq!(dst.width, 2);
    assert_eq!(dst.height, 5);
    assert_eq!(rows_of(&dst), vec![2, 3, 4, 0, 1]);
}

#[test]
fn stitch_golden_fixture_reproduces_reference() {
    // a scrambled fixture whose reassembly under four bands is known
    let reference = row_image(3, &[10, 20, 30, 40, 50, 60, 70, 80, 90]);
    // nine rows in four bands: heights 3,2,2,2 from the top of the output,
    // read bottom-up from the fixture
    let fixture = row_image(3, &[80, 90, 60, 70, 40, 50, 10, 20, 30]);
    let dst = stitch_img(&fixture, 4);
    assert_eq!(dst.pixels, reference.pixels);
}

#[test]
fn stitch_with_more_bands_than_rows_is_identity() {
    let src = row_image(2, &[7, 9]);
    let dst = stitch_img(&src, 5);
    assert_eq!(rows_of(&dst), vec![7, 9]);
}

#[test]
fn stitch_single_band_is_identity() {
    let src = row_image(4, &[1, 2, 3]);
    let dst = stitch_img(&src, 1);
    assert_eq!(dst.pixels, src.pixels);
}

fn sample_png_bytes() -> (Vec<u8>, image::RgbImage) {
    let img = image::RgbImage::from_fn(4, 6, |x, y| image::Rgb([x as u8 * 10, y as u8 * 10, 7]));
    let mut out = Vec::new();
    img.write_to(
        &mut std::io::Cursor::new(&mut out),
        image::ImageFormat::Png,
    )
    .unwrap();
    (out, img)
}

#[test]
fn process_img_unscrambled_reencodes_the_source() {
    let (png, img) = sample_png_bytes();
    let out = process_img(&png, DownloadFormat::Png, 0).unwrap();
    let decoded = image::load_from_memory(&out).unwrap().to_rgb8();
    assert_eq!(decoded.dimensions(), (4, 6));
    assert_eq!(decoded.into_raw(), img.into_raw());
}

#[test]
fn process_img_applies_the_band_reordering() {
    let (png, img) = sample_png_bytes();
    let out = process_img(&png, DownloadFormat::Png, 2).unwrap();
    let decoded = image::load_from_memory(&out).unwrap().to_rgb8();
    // six rows in two bands of three: [r3 r4 r5] then [r0 r1 r2]
    let src = img.into_raw();
    let row = 4 * 3;
    let mut expected = Vec::new();
    expected.extend_from_slice(&src[3 * row..6 * row]);
    expected.extend_from_slice(&src[0..3 * row]);
    assert_eq!(decoded.into_raw(), expected);
}

#[test]
fn process_img_rejects_undecodable_bytes() {
    assert_eq!(
        process_img(b"not an image", DownloadFormat::Jpeg, 0),
        Err(ImageError::DecodeError)
    );
}

#[test]
fn process_img_supports_every_output_format() {
    let (png, _) = sample_png_bytes();
    for format in [
        DownloadFormat::Jpeg,
        DownloadFormat::Png,
        DownloadFormat::Webp,
    ] {
        let out = process_img(&png, format, 0).unwrap();
        assert!(!out.is_empty());
        assert!(image::load_from_memory(&out).is_ok());
    }
}

fn webp_bytes_of(img: &image::RgbImage) -> Vec<u8> {
    let mut out = Vec::new();
    img.write_to(
        &mut std::io::Cursor::new(&mut out),
        image::ImageFormat::WebP,
    )
    .unwrap();
    out
}

#[test]
fn chapter_end_to_end_unscrambled_images_pass_through() {
    // chapter 12345 with three WebP images and a scramble id above the
    // chapter id, so no image is scrambled
    let chapter_id: i64 = 12345;
    let scramble_id: i64 = 100000;
    let names = vec![
        "00001.webp".to_string(),
        "00002.webp".to_string(),
        "00003.webp".to_string(),
    ];
    let work = get_urls_with_block_num(scramble_id, chapter_id, &names);
    assert_eq!(work.len(), 3);
    for (i, (url, block_num)) in work.iter().enumerate() {
        assert_eq!(
            url,
            &format!(
                "https://cdn-msp2.jmapiproxy2.cc/media/photos/12345/0000{}.webp",
                i + 1
            )
        );
        assert_eq!(*block_num, 0);
    }
    for i in 0..3u8 {
        let img = image::RgbImage::from_fn(5, 4, |x, y| image::Rgb([i, x as u8, y as u8]));
        let bytes = webp_bytes_of(&img);
        let out = process_img(&bytes, DownloadFormat::Webp, work[i as usize].1).unwrap();
        // identical output bytes to the un-scrambled source re-encoded
        let reencoded = process_img(&bytes, DownloadFormat::Webp, 0).unwrap();
        assert_eq!(out, reencoded);
        let decoded = image::load_from_memory(&out).unwrap().to_rgb8();
        assert_eq!(decoded.into_raw(), img.into_raw());
    }
}

#[test]
fn chapter_work_list_is_ten_banded_in_the_legacy_band() {
    // the same chapter id with a scramble id below it falls into the
    // constant ten-band range
    let names = vec!["00001.webp".to_string()];
    let work = get_urls_with_block_num(1000, 12345, &names);
    assert_eq!(work.len(), 1);
    assert_eq!(work[0].1, 10);
}

#[test]
fn chapter_work_list_skips_non_webp_files() {
    let names = vec![
        "00001.webp".to_string(),
        "00002.gif".to_string(),
        "00003.WEBP".to_string(),
        "noext".to_string(),
        ".webp".to_string(),
    ];
    let work = get_urls_with_block_num(100000, 12345, &names);
    assert_eq!(work.len(), 2);
    assert!(work[0].0.ends_with("/00001.webp"));
    assert!(work[1].0.ends_with("/00003.WEBP"));
}
