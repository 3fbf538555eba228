use document_converter::error::ErrorKind;
use document_converter::pipeline::{
    apply_sharpen_filter, apply_threshold, can_resize, convert_generic_document,
    convert_passport_photo, convert_signature, encode, encode_if_compact, enhance_document,
    enhance_image_quality, enhance_signature, DocumentKind,
};
use document_converter::raster::{
    buffer_bytes, can_walk, fits_in_buffer, holds_no_spare_samples, PixelLayout,
};
use document_converter::requirements::{PhotoRequirements, SignatureRequirements};
use image::{DynamicImage, GrayAlphaImage, GrayImage, ImageBuffer, Luma, Rgb, RgbImage, Rgba, RgbaImage};

fn photo(width: u32, height: u32) -> PhotoRequirements {
    PhotoRequirements { width, height, dpi: 300, format: "jpg".to_string() }
}

fn signature(width: u32, height: u32) -> SignatureRequirements {
    SignatureRequirements { width, height, dpi: 300, format: "png".to_string() }
}

fn gradient(width: u32, height: u32) -> DynamicImage {
    DynamicImage::ImageRgb8(RgbImage::from_fn(width, height, |x, y| {
        Rgb([(x * 7 % 256) as u8, (y * 11 % 256) as u8, ((x + y) * 3 % 256) as u8])
    }))
}

fn is_black_and_white(img: &DynamicImage) -> bool {
    let rgb = img.as_rgb8().expect("an 8-bit RGB image");
    rgb.pixels().all(|p| p.0 == [0, 0, 0] || p.0 == [255, 255, 255])
}

#[test]
fn tags_name_their_kinds() {
    assert_eq!(DocumentKind::from_tag("passport_photo"), DocumentKind::PassportPhoto);
    assert_eq!(DocumentKind::from_tag("signature"), DocumentKind::Signature);
    assert_eq!(DocumentKind::from_tag("generic"), DocumentKind::Generic);
}

#[test]
fn unknown_tags_are_generic() {
    for tag in ["", "marksheet", "Signature", "signature ", "passport-photo", "passport_photos", "PASSPORT_PHOTO"] {
        assert_eq!(DocumentKind::from_tag(tag), DocumentKind::Generic, "{tag}");
    }
}

#[test]
fn passport_photo_has_the_required_size() {
    for (w, h) in [(200, 230), (10, 400), (500, 3), (64, 48), (1, 1)] {
        let out = convert_passport_photo(gradient(64, 48), &photo(w, h)).unwrap();
        assert_eq!((out.width(), out.height()), (w, h));
        assert_eq!(out.color(), image::ColorType::Rgb8);
    }
}

#[test]
fn passport_photo_keeps_its_layout() {
    let gray = DynamicImage::ImageLuma8(GrayImage::from_pixel(8, 8, Luma([90])));
    let out = convert_passport_photo(gray, &photo(4, 6)).unwrap();
    assert_eq!(out.color(), image::ColorType::L8);
    assert_eq!((out.width(), out.height()), (4, 6));
    assert!(out.as_luma8().unwrap().pixels().all(|p| p.0 == [100]));

    let deep = DynamicImage::new_rgb16(8, 8);
    let out = convert_passport_photo(deep, &photo(4, 6)).unwrap();
    assert_eq!(out.color(), image::ColorType::Rgb16);
    assert!(out.as_rgb16().unwrap().pixels().all(|p| p.0 == [10, 10, 10]));
}

#[test]
fn passport_photo_of_the_same_size_is_brightened_by_ten() {
    let out = convert_passport_photo(gradient(16, 16), &photo(16, 16)).unwrap();
    let before = gradient(16, 16);
    let before = before.as_rgb8().unwrap();
    for (x, y, p) in out.as_rgb8().unwrap().enumerate_pixels() {
        let q = before.get_pixel(x, y);
        for c in 0..3 {
            assert_eq!(p[c], q[c].saturating_add(10));
        }
    }
}

#[test]
fn passport_photo_of_an_empty_size_is_empty() {
    for (w, h) in [(0, 0), (0, 1), (5, 0)] {
        let out = convert_passport_photo(gradient(8, 8), &photo(w, h)).unwrap();
        assert_eq!((out.width(), out.height()), (w, h));
        let error = encode(&out).unwrap_err();
        assert_eq!(error.kind, ErrorKind::Encode);
    }
}

#[test]
fn size_without_columns_is_an_encode_error() {
    let error = convert_passport_photo(gradient(8, 8), &photo(0, 5)).unwrap_err();
    assert_eq!(error.kind, ErrorKind::Encode);
    assert_eq!(error.message, "Failed to encode image: the requested size has no pixels");

    let error = convert_signature(gradient(8, 8), &signature(0, 2)).unwrap_err();
    assert_eq!(error.kind, ErrorKind::Encode);
    assert_eq!(error.message, "Failed to encode image: the requested size has no pixels");
}

#[test]
fn image_without_columns_is_a_decode_error() {
    let error = convert_signature(DynamicImage::new_rgb8(0, 5), &signature(4, 4)).unwrap_err();
    assert_eq!(error.kind, ErrorKind::Decode);
    assert_eq!(error.message, "Failed to load image: the image has no pixels");

    let error = convert_generic_document(DynamicImage::new_rgb8(0, 2)).unwrap_err();
    assert_eq!(error.kind, ErrorKind::Decode);
    assert_eq!(error.message, "Failed to load image: the image has no pixels");
}

#[test]
fn empty_passport_photo_is_resized_to_black() {
    let out = convert_passport_photo(DynamicImage::new_rgb8(0, 5), &photo(3, 2)).unwrap();
    assert_eq!((out.width(), out.height()), (3, 2));
    assert!(out.as_rgb8().unwrap().pixels().all(|p| p.0 == [10, 10, 10]));
}

#[test]
fn small_sizes_of_every_layout_are_converted_or_refused() {
    let sides = [0u32, 1, 2, 3];
    for iw in sides {
        for ih in sides {
            let images = [
                DynamicImage::new_luma8(iw, ih),
                DynamicImage::new_luma_a8(iw, ih),
                DynamicImage::new_rgb8(iw, ih),
                DynamicImage::new_rgba8(iw, ih),
                DynamicImage::new_luma16(iw, ih),
                DynamicImage::new_luma_a16(iw, ih),
                DynamicImage::new_rgb16(iw, ih),
                DynamicImage::new_rgba16(iw, ih),
                DynamicImage::new_rgb32f(iw, ih),
                DynamicImage::new_rgba32f(iw, ih),
            ];
            for img in images {
                let generic = convert_generic_document(img.clone());
                assert_eq!(generic.is_ok(), img.color().bytes_per_pixel() / img.color().channel_count() < 4 && (iw > 0 || ih <= 1));
                if let Ok(out) = generic {
                    assert_eq!(encode(&out).is_ok(), iw > 0 && ih > 0);
                }
                for w in sides {
                    for h in sides {
                        if let Ok(out) = convert_passport_photo(img.clone(), &photo(w, h)) {
                            assert_eq!((out.width(), out.height(), out.color()), (w, h, img.color()));
                            assert_eq!(encode(&out).is_ok(), w > 0 && h > 0);
                        }
                        let signed = convert_signature(img.clone(), &signature(w, h));
                        assert_eq!(signed.is_ok(), (iw > 0 || ih <= 1) && (w > 0 || h <= 1));
                        if let Ok(out) = signed {
                            assert_eq!((out.width(), out.height()), (w, h));
                            assert!(is_black_and_white(&out));
                            assert_eq!(encode(&out).is_ok(), w > 0 && h > 0);
                        }
                    }
                }
            }
        }
    }
}

#[test]
fn photo_enhancement_brightens_colour_and_keeps_opacity() {
    let img = DynamicImage::ImageRgba8(RgbaImage::from_fn(3, 1, |x, _| match x {
        0 => Rgba([0, 100, 245, 7]),
        1 => Rgba([246, 250, 255, 255]),
        _ => Rgba([1, 2, 3, 0]),
    }));
    let out = enhance_image_quality(img);
    let px: Vec<[u8; 4]> = out.as_rgba8().unwrap().pixels().map(|p| p.0).collect();
    assert_eq!(px, vec![[10, 110, 255, 7], [255, 255, 255, 255], [11, 12, 13, 0]]);

    let img = DynamicImage::ImageLumaA8(GrayAlphaImage::from_pixel(2, 2, image::LumaA([250, 3])));
    let out = enhance_image_quality(img);
    assert!(out.as_luma_alpha8().unwrap().pixels().all(|p| p.0 == [255, 3]));
}

#[test]
fn photo_enhancement_of_sixteen_bit_samples() {
    let img = DynamicImage::ImageLuma16(ImageBuffer::from_pixel(2, 1, Luma([65530u16])));
    let out = enhance_image_quality(img);
    assert!(out.as_luma16().unwrap().pixels().all(|p| p.0 == [65535]));
}

#[test]
fn sharpening_hands_the_image_back() {
    let img = gradient(9, 5);
    let out = apply_sharpen_filter(img.clone());
    assert_eq!(out, img);
}

#[test]
fn passport_photo_of_real_samples_is_a_decode_error() {
    let error = convert_passport_photo(DynamicImage::new_rgb32f(4, 4), &photo(2, 2)).unwrap_err();
    assert_eq!(error.kind, ErrorKind::Decode);
    assert_eq!(error.message, "Failed to load image: the pixel layout is not supported");
}

#[test]
fn generic_document_of_real_samples_is_a_decode_error() {
    let error = convert_generic_document(DynamicImage::new_rgba32f(4, 4)).unwrap_err();
    assert_eq!(error.kind, ErrorKind::Decode);
    assert_eq!(error.message, "Failed to load image: the pixel layout is not supported");
}

#[test]
fn size_beyond_memory_is_an_encode_error() {
    let error = convert_passport_photo(gradient(4, 4), &photo(u32::MAX, u32::MAX)).unwrap_err();
    assert_eq!(error.kind, ErrorKind::Encode);
    assert_eq!(error.message, "Failed to encode image: the requested size is too large");

    let error = convert_signature(gradient(4, 4), &signature(u32::MAX, u32::MAX)).unwrap_err();
    assert_eq!(error.kind, ErrorKind::Encode);
    assert_eq!(error.message, "Failed to encode image: the requested size is too large");
}

#[test]
fn layout_is_looked_at_before_size() {
    let error = convert_passport_photo(DynamicImage::new_rgb32f(4, 4), &photo(u32::MAX, u32::MAX)).unwrap_err();
    assert_eq!(error.kind, ErrorKind::Decode);
}

#[test]
fn buffer_sizes_are_held_against_the_vector_limit() {
    assert!(fits_in_buffer(0, 0, 16));
    assert!(fits_in_buffer(u32::MAX, 0, 16));
    assert!(fits_in_buffer(1000, 1000, 16));
    assert!(!fits_in_buffer(u32::MAX, u32::MAX, 16));
    assert!(!fits_in_buffer(u32::MAX, u32::MAX, 1));
    assert!(fits_in_buffer(u32::MAX, u32::MAX, 0));
    let limit = isize::MAX as u128;
    assert_eq!(fits_in_buffer(1 << 31, 1 << 28, 16), 16u128 << 59 <= limit);
    assert_eq!(fits_in_buffer(1 << 31, 1 << 27, 16), 16u128 << 58 <= limit);
    assert!(can_resize(&gradient(4, 4), 300, 150));
    assert!(can_resize(&gradient(4, 4), 0, u32::MAX));
    assert!(!can_resize(&gradient(4, 4), u32::MAX, u32::MAX));
    assert!(can_walk(0, 0) && can_walk(0, 1) && can_walk(1, 0) && can_walk(3, 9));
    assert!(!can_walk(0, 2) && !can_walk(0, u32::MAX));
}

#[test]
fn signature_has_the_required_size_and_is_black_and_white() {
    for (w, h) in [(300, 150), (7, 90), (64, 48), (1, 1)] {
        let out = convert_signature(gradient(64, 48), &signature(w, h)).unwrap();
        assert_eq!((out.width(), out.height()), (w, h));
        assert_eq!(out.color(), image::ColorType::Rgb8);
        assert!(is_black_and_white(&out));
    }
}

#[test]
fn signature_of_real_samples_is_converted() {
    let out = convert_signature(DynamicImage::new_rgb32f(4, 4), &signature(2, 3)).unwrap();
    assert_eq!((out.width(), out.height()), (2, 3));
    assert!(is_black_and_white(&out));
}

#[test]
fn signature_is_judged_by_its_grayscale_form() {
    // As a gray level this green lies above the threshold once the contrast
    // is raised; its own channels, with the contrast raised, lie below.
    let green = DynamicImage::ImageRgb8(RgbImage::from_pixel(4, 4, Rgb([0, 190, 0])));
    let out = convert_signature(green, &signature(4, 4)).unwrap();
    assert!(out.as_rgb8().unwrap().pixels().all(|p| p.0 == [255, 255, 255]));
}

#[test]
fn signature_contrast_is_raised_before_the_threshold() {
    // Gray 120 is below the threshold; 140 is above it. With the contrast
    // raised, 127 stays below and 130 stays above, and 125 falls further.
    let img = DynamicImage::ImageLuma8(GrayImage::from_fn(4, 1, |x, _| Luma([[120, 127, 130, 140][x as usize]])));
    let out = enhance_signature(img);
    let px: Vec<u8> = out.as_rgb8().unwrap().pixels().map(|p| p[0]).collect();
    assert_eq!(px, vec![0, 0, 255, 255]);
}

#[test]
fn signature_transform_is_stable_on_its_own_output() {
    let once = convert_signature(gradient(64, 48), &signature(30, 20)).unwrap();
    let twice = convert_signature(once.clone(), &signature(30, 20)).unwrap();
    assert_eq!(once.as_rgb8().unwrap().as_raw(), twice.as_rgb8().unwrap().as_raw());
    assert_eq!((twice.width(), twice.height()), (30, 20));
}

#[test]
fn threshold_gives_an_rgb_image_of_the_same_size() {
    let img = DynamicImage::ImageLuma8(GrayImage::from_fn(3, 2, |x, y| Luma([(x * 60 + y * 100) as u8])));
    let out = apply_threshold(img, 128);
    assert_eq!((out.width(), out.height()), (3, 2));
    let px: Vec<[u8; 3]> = out.as_rgb8().unwrap().pixels().map(|p| p.0).collect();
    // levels: 0 60 120 / 100 160 220
    assert_eq!(px, vec![[0; 3], [0; 3], [0; 3], [0; 3], [255; 3], [255; 3]]);
}

#[test]
fn threshold_follows_its_argument() {
    let img = DynamicImage::ImageRgb8(RgbImage::from_pixel(2, 2, Rgb([100, 100, 100])));
    assert!(apply_threshold(img.clone(), 99).as_rgb8().unwrap().pixels().all(|p| p.0 == [255; 3]));
    assert!(apply_threshold(img.clone(), 100).as_rgb8().unwrap().pixels().all(|p| p.0 == [0; 3]));
}

#[test]
fn threshold_of_an_image_with_spare_samples() {
    let buffer = RgbImage::from_raw(1, 1, vec![200, 200, 200, 9, 9, 9, 9]).unwrap();
    let out = apply_threshold(DynamicImage::ImageRgb8(buffer), 128);
    assert_eq!(out.as_rgb8().unwrap().as_raw(), &vec![255, 255, 255]);
    assert!(encode(&out).is_ok());
}

#[test]
fn generic_document_keeps_its_size() {
    for (w, h) in [(64, 48), (1, 1), (3, 200), (0, 0)] {
        let out = convert_generic_document(gradient(w, h)).unwrap();
        assert_eq!((out.width(), out.height()), (w, h));
        assert_eq!(out.color(), image::ColorType::Rgb8);
    }
}

#[test]
fn generic_document_is_brightened_then_contrasted() {
    // 100 + 5 = 105; the contrast of 10 scales the distance from mid-gray by
    // 1.21: (105 / 255 - 0.5) * 1.21 + 0.5 = 0.3932..., which is 100.27.
    let img = DynamicImage::ImageLuma8(GrayImage::from_fn(3, 1, |x, _| Luma([[100, 253, 0][x as usize]])));
    let out = enhance_document(img);
    let px: Vec<u8> = out.as_luma8().unwrap().pixels().map(|p| p[0]).collect();
    assert_eq!(px, vec![100, 255, 0]);
}

#[test]
fn encoded_image_is_a_jpeg_of_the_same_size() {
    let bytes = encode(&gradient(33, 17)).unwrap();
    assert_eq!(&bytes[..3], &[0xFF, 0xD8, 0xFF]);
    assert_eq!(image::guess_format(&bytes).unwrap(), image::ImageFormat::Jpeg);
    let back = image::load_from_memory(&bytes).unwrap();
    assert_eq!((back.width(), back.height()), (33, 17));
}

#[test]
fn gray_image_is_encoded_as_gray() {
    let bytes = encode(&DynamicImage::ImageLuma8(GrayImage::from_pixel(8, 8, Luma([77])))).unwrap();
    let back = image::load_from_memory(&bytes).unwrap();
    assert_eq!(back.color(), image::ColorType::L8);
}

#[test]
fn sizes_that_no_jpeg_has_are_encode_errors() {
    for (w, h) in [(0, 0), (0, 4), (4, 0), (65536, 1), (1, 65536)] {
        let error = encode(&DynamicImage::new_luma8(w, h)).unwrap_err();
        assert_eq!(error.kind, ErrorKind::Encode, "{w}x{h}");
        assert!(error.message.starts_with("Failed to encode image: "));
        assert!(error.message.len() > "Failed to encode image: ".len());
    }
    assert!(encode(&DynamicImage::new_luma8(65535, 1)).is_ok());
    assert!(encode(&DynamicImage::new_luma8(1, 65535)).is_ok());
}

#[test]
fn layouts_are_told_apart() {
    assert_ne!(PixelLayout::Rgb8, PixelLayout::Rgba8);
    assert!(PixelLayout::Luma16.has_integer_samples());
    assert!(PixelLayout::Rgba8.has_integer_samples());
    assert!(!PixelLayout::Rgb32F.has_integer_samples());
    assert!(!PixelLayout::Rgba32F.has_integer_samples());
    assert!(!PixelLayout::Other.has_integer_samples());
}

#[test]
fn threshold_compares_the_weighted_sum_itself() {
    // 0.299 * 129 + 0.587 * 128 + 0.114 * 128 = 128.299, strictly above 128.
    let img = DynamicImage::ImageRgb8(RgbImage::from_pixel(1, 1, Rgb([129, 128, 128])));
    let out = apply_threshold(img, 128);
    assert_eq!(out.as_rgb8().unwrap().get_pixel(0, 0).0, [255, 255, 255]);
    let img = DynamicImage::ImageRgb8(RgbImage::from_pixel(1, 1, Rgb([128, 128, 128])));
    let out = apply_threshold(img, 128);
    assert_eq!(out.as_rgb8().unwrap().get_pixel(0, 0).0, [0, 0, 0]);
}

#[test]
fn signature_enhancement_of_three_pixels() {
    let img = DynamicImage::ImageRgb8(RgbImage::from_fn(3, 1, |x, _| {
        Rgb([[128, 128, 128], [130, 130, 130], [0, 0, 255]][x as usize])
    }));
    let out = enhance_signature(img);
    assert_eq!((out.width(), out.height(), out.color()), (3, 1, image::ColorType::Rgb8));
    let px: Vec<[u8; 3]> = out.as_rgb8().unwrap().pixels().map(|p| p.0).collect();
    assert_eq!(px, vec![[0; 3], [255; 3], [0; 3]]);
}

#[test]
fn chessboard_signature_comes_back_unchanged() {
    let img = DynamicImage::ImageRgb8(RgbImage::from_fn(2, 2, |x, y| {
        if x == y { Rgb([255, 255, 255]) } else { Rgb([0, 0, 0]) }
    }));
    let out = convert_signature(img.clone(), &signature(2, 2)).unwrap();
    assert_eq!(out, img);
}

#[test]
fn green_pixel_becomes_a_white_signature() {
    let img = DynamicImage::ImageRgb8(RgbImage::from_pixel(1, 1, Rgb([0, 255, 0])));
    let out = convert_signature(img, &signature(2, 2)).unwrap();
    assert_eq!((out.width(), out.height()), (2, 2));
    assert!(out.as_rgb8().unwrap().pixels().all(|p| p.0 == [255, 255, 255]));
}

#[test]
fn dark_gray_becomes_a_black_signature() {
    let img = DynamicImage::ImageRgb8(RgbImage::from_pixel(3, 3, Rgb([50, 50, 50])));
    let requirements = SignatureRequirements { width: 2, height: 1, dpi: 72, format: "jpeg".to_string() };
    let out = convert_signature(img, &requirements).unwrap();
    assert_eq!((out.width(), out.height()), (2, 1));
    assert!(out.as_rgb8().unwrap().pixels().all(|p| p.0 == [0, 0, 0]));
}

#[test]
fn resolution_and_format_change_no_pixel() {
    let a = SignatureRequirements { width: 30, height: 20, dpi: 72, format: "jpeg".to_string() };
    let b = SignatureRequirements { width: 30, height: 20, dpi: 1200, format: "".to_string() };
    assert_eq!(
        convert_signature(gradient(64, 48), &a).unwrap(),
        convert_signature(gradient(64, 48), &b).unwrap()
    );
    let c = PhotoRequirements { width: 30, height: 20, dpi: 72, format: "bmp".to_string() };
    assert_eq!(
        convert_passport_photo(gradient(64, 48), &c).unwrap(),
        convert_passport_photo(gradient(64, 48), &photo(30, 20)).unwrap()
    );
}

#[test]
fn white_square_with_black_centre_is_white_away_from_the_centre() {
    let img = DynamicImage::ImageRgb8(RgbImage::from_fn(1000, 1000, |x, y| {
        if (495..505).contains(&x) && (495..505).contains(&y) { Rgb([0, 0, 0]) } else { Rgb([255, 255, 255]) }
    }));
    let out = convert_signature(img, &signature(300, 150)).unwrap();
    assert_eq!((out.width(), out.height()), (300, 150));
    assert!(is_black_and_white(&out));
    for (x, y, p) in out.as_rgb8().unwrap().enumerate_pixels() {
        if x < 140 || x >= 160 || y < 65 || y >= 85 {
            assert_eq!(p.0, [255, 255, 255], "{x} {y}");
        }
    }
}

#[test]
fn generic_document_follows_brightness_then_contrast() {
    let img = DynamicImage::ImageLuma8(GrayImage::from_fn(256, 1, |x, _| Luma([x as u8])));
    let out = enhance_document(img);
    assert_eq!((out.width(), out.height(), out.color()), (256, 1, image::ColorType::L8));
    for (x, _, p) in out.as_luma8().unwrap().enumerate_pixels() {
        let bright = (x + 5).min(255) as f32;
        let expected = (((bright / 255.0 - 0.5) * 1.21 + 0.5) * 255.0).clamp(0.0, 255.0) as u8;
        assert!((p[0] as i32 - expected as i32).abs() <= 1, "{x}");
    }
}

#[test]
fn image_with_spare_samples_is_an_encode_error() {
    let spare = DynamicImage::ImageRgb8(RgbImage::from_raw(1, 1, vec![200, 200, 200, 9, 9]).unwrap());
    assert!(!holds_no_spare_samples(&spare));
    let error = encode_if_compact(&spare).unwrap_err();
    assert_eq!(error.kind, ErrorKind::Encode);
    assert_eq!(error.message, "Failed to encode image: the image holds samples beyond its pixels");
}

#[test]
fn image_without_spare_samples_is_encoded() {
    for img in [gradient(9, 5), DynamicImage::new_luma16(3, 3), DynamicImage::new_rgba32f(2, 2)] {
        assert!(holds_no_spare_samples(&img));
        assert_eq!(encode_if_compact(&img).unwrap(), encode(&img).unwrap());
    }
    let error = encode_if_compact(&DynamicImage::new_rgb8(0, 3)).unwrap_err();
    assert_eq!(error.kind, ErrorKind::Encode);
    assert_ne!(error.message, "Failed to encode image: the image holds samples beyond its pixels");
}

#[test]
fn buffer_takes_its_pixels_times_their_bytes() {
    assert_eq!(buffer_bytes(0, 7, 3), 0);
    assert_eq!(buffer_bytes(300, 150, 3), 135_000);
    assert_eq!(buffer_bytes(u32::MAX, u32::MAX, 16), 16 * (u32::MAX as u128) * (u32::MAX as u128));
    assert_eq!(PixelLayout::Rgb8.pixel_bytes(), 3);
    assert_eq!(PixelLayout::Rgba16.pixel_bytes(), 8);
    assert_eq!(PixelLayout::Rgba32F.pixel_bytes(), 16);
}

#[test]
fn gray_level_of_a_signature_is_rounded_down() {
    // At its own size a signature is white exactly where its gray level,
    // 0.2126 R + 0.7152 G + 0.0722 B rounded down, is 129 or more.
    for (colour, white) in [
        ([0, 180, 0], false),  // 128.736
        ([0, 181, 0], true),   // 129.4512
        ([255, 104, 0], false), // 128.5938
        ([255, 105, 0], true), // 129.309
        ([0, 0, 255], false),  // 18.411
        ([129, 129, 129], true),
        ([128, 128, 128], false),
    ] {
        let img = DynamicImage::ImageRgb8(RgbImage::from_pixel(2, 2, Rgb(colour)));
        let out = convert_signature(img, &signature(2, 2)).unwrap();
        let expected = if white { [255; 3] } else { [0; 3] };
        assert!(out.as_rgb8().unwrap().pixels().all(|p| p.0 == expected), "{colour:?}");
    }
    // The opacity of a pixel does not count.
    let img = DynamicImage::ImageRgba8(RgbaImage::from_pixel(2, 2, Rgba([0, 181, 0, 3])));
    let out = convert_signature(img, &signature(2, 2)).unwrap();
    assert!(out.as_rgb8().unwrap().pixels().all(|p| p.0 == [255; 3]));
}

#[test]
fn rgb_form_of_a_gray_image_repeats_its_level() {
    // A gray level is above a threshold exactly where each channel of its
    // RGB form is.
    for level in 0..=255u8 {
        let img = DynamicImage::ImageLuma8(GrayImage::from_pixel(1, 1, Luma([level])));
        let out = apply_threshold(img.clone(), level);
        assert_eq!(out.as_rgb8().unwrap().get_pixel(0, 0).0, [0; 3], "{level}");
        if level > 0 {
            let out = apply_threshold(img, level - 1);
            assert_eq!(out.as_rgb8().unwrap().get_pixel(0, 0).0, [255; 3], "{level}");
        }
    }
}

#[test]
fn raised_contrast_keeps_black_and_white() {
    let img = DynamicImage::ImageLuma8(GrayImage::from_fn(2, 1, |x, _| Luma([[0, 255][x as usize]])));
    let out = enhance_signature(img);
    let px: Vec<[u8; 3]> = out.as_rgb8().unwrap().pixels().map(|p| p.0).collect();
    assert_eq!(px, vec![[0; 3], [255; 3]]);

    let img = DynamicImage::ImageLuma16(ImageBuffer::from_fn(2, 1, |x, _| Luma([[0u16, 65535][x as usize]])));
    let out = enhance_signature(img);
    let px: Vec<[u8; 3]> = out.as_rgb8().unwrap().pixels().map(|p| p.0).collect();
    assert_eq!(px, vec![[0; 3], [255; 3]]);

    // With the contrast of a generic document the extremes stay too; only
    // the brightness moves black.
    let img = DynamicImage::ImageLuma8(GrayImage::from_fn(2, 1, |x, _| Luma([[0, 255][x as usize]])));
    let out = enhance_document(img);
    let px: Vec<u8> = out.as_luma8().unwrap().pixels().map(|p| p[0]).collect();
    assert_eq!(px[1], 255);
    assert!(px[0] < 5);
}

#[test]
fn photo_is_resampled_with_a_smooth_filter() {
    // Between a dark and a light column a smooth filter gives levels that
    // neither column has; the nearest pixel would repeat the two.
    let img = DynamicImage::ImageLuma8(GrayImage::from_fn(2, 1, |x, _| Luma([[40, 200][x as usize]])));
    let out = convert_passport_photo(img, &photo(8, 1)).unwrap();
    let px: Vec<u8> = out.as_luma8().unwrap().pixels().map(|p| p[0]).collect();
    assert_eq!(px.len(), 8);
    assert!(px.iter().any(|&v| v != 50 && v != 210), "{px:?}");
    assert!(px[0] < px[7]);
}

#[test]
fn signature_is_resampled_with_a_smooth_filter() {
    // Thin dark lines on white, one under the middle of every pixel of the
    // result: averaged over their neighbours they stay above the threshold
    // and vanish; the nearest pixel would be the line.
    let img = DynamicImage::ImageLuma8(GrayImage::from_fn(64, 1, |x, _| Luma([if x % 8 == 4 { 100 } else { 255 }])));
    let out = convert_signature(img, &signature(8, 1)).unwrap();
    assert!(out.as_rgb8().unwrap().pixels().all(|p| p.0 == [255; 3]));
}
