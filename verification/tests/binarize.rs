use document_converter::binarize::{binarize_pixel, luminance_thousandths, threshold_samples};
use document_converter::text::same_text;

#[test]
fn luminance_of_primaries() {
    assert_eq!(luminance_thousandths(0, 0, 0), 0);
    assert_eq!(luminance_thousandths(255, 255, 255), 255_000);
    assert_eq!(luminance_thousandths(255, 0, 0), 76_245);
    assert_eq!(luminance_thousandths(0, 255, 0), 149_685);
    assert_eq!(luminance_thousandths(0, 0, 255), 29_070);
}

#[test]
fn luminance_is_the_weighted_sum() {
    // 0.299 * 10 + 0.587 * 20 + 0.114 * 30 = 18.15
    assert_eq!(luminance_thousandths(10, 20, 30), 18_150);
    // 0.299 * 200 + 0.587 * 100 + 0.114 * 50 = 124.2
    assert_eq!(luminance_thousandths(200, 100, 50), 124_200);
    // 0.299 * 129 + 0.587 * 128 + 0.114 * 128 = 128.299
    assert_eq!(luminance_thousandths(129, 128, 128), 128_299);
}

#[test]
fn luminance_of_gray_is_its_level() {
    for level in 0..=255u8 {
        assert_eq!(luminance_thousandths(level, level, level), 1000 * level as u32);
    }
}

#[test]
fn luminance_is_not_rounded_before_it_is_compared() {
    // 128.299 and 128.114 are strictly above 128; 127.886 is not.
    assert_eq!(binarize_pixel(129, 128, 128, 128), 255);
    assert_eq!(binarize_pixel(128, 128, 129, 128), 255);
    assert_eq!(binarize_pixel(128, 128, 127, 128), 0);
    // 0.114 is strictly above 0.
    assert_eq!(binarize_pixel(0, 0, 1, 0), 255);
    // 254.886 is strictly above 254 and not above 255.
    assert_eq!(binarize_pixel(255, 255, 254, 254), 255);
    assert_eq!(binarize_pixel(255, 255, 254, 255), 0);
}

#[test]
fn every_colour_is_judged_by_its_weighted_sum() {
    for r in (0..=255u16).step_by(5) {
        for g in 0..=255u16 {
            for b in (0..=255u16).step_by(3) {
                let sum = 299 * r as u32 + 587 * g as u32 + 114 * b as u32;
                let white = binarize_pixel(r as u8, g as u8, b as u8, 128) == 255;
                assert_eq!(white, sum > 128_000, "{r} {g} {b}");
            }
        }
    }
}

#[test]
fn pixel_at_threshold_is_black() {
    assert_eq!(binarize_pixel(128, 128, 128, 128), 0);
    assert_eq!(binarize_pixel(129, 129, 129, 128), 255);
    assert_eq!(binarize_pixel(127, 127, 127, 128), 0);
}

#[test]
fn pixel_against_extreme_thresholds() {
    assert_eq!(binarize_pixel(0, 0, 0, 0), 0);
    assert_eq!(binarize_pixel(1, 1, 1, 0), 255);
    assert_eq!(binarize_pixel(255, 255, 255, 255), 0);
    assert_eq!(binarize_pixel(255, 255, 255, 254), 255);
}

#[test]
fn samples_become_black_or_white() {
    let mut samples = vec![200, 100, 50, 250, 250, 250, 0, 255, 0, 255, 0, 255];
    threshold_samples(&mut samples, 128);
    assert_eq!(samples, vec![0, 0, 0, 255, 255, 255, 255, 255, 255, 0, 0, 0]);
}

#[test]
fn samples_after_last_pixel_are_kept() {
    let mut samples = vec![250, 250, 250, 7, 200];
    threshold_samples(&mut samples, 128);
    assert_eq!(samples, vec![255, 255, 255, 7, 200]);

    let mut short = vec![9, 250];
    threshold_samples(&mut short, 128);
    assert_eq!(short, vec![9, 250]);

    let mut empty: Vec<u8> = Vec::new();
    threshold_samples(&mut empty, 128);
    assert!(empty.is_empty());
}

#[test]
fn thresholding_twice_changes_nothing_more() {
    for threshold in [0u8, 1, 76, 128, 200, 254, 255] {
        let mut once: Vec<u8> = (0..=255u16).flat_map(|v| [v as u8, (255 - v) as u8, (v / 2) as u8]).collect();
        threshold_samples(&mut once, threshold);
        let mut twice = once.clone();
        threshold_samples(&mut twice, threshold);
        assert_eq!(once, twice);
        assert!(once.chunks(3).all(|p| p[0] == p[1] && p[1] == p[2] && (p[0] == 0 || p[0] == 255)));
    }
}

#[test]
fn binary_samples_are_kept_below_threshold_255() {
    let binary = vec![0, 0, 0, 255, 255, 255, 255, 255, 255, 0, 0, 0];
    for threshold in [0u8, 128, 254] {
        let mut samples = binary.clone();
        threshold_samples(&mut samples, threshold);
        assert_eq!(samples, binary);
    }
}

#[test]
fn texts_compare_by_their_characters() {
    assert!(same_text("signature", "signature"));
    assert!(same_text("", ""));
    assert!(!same_text("signature", "signatur"));
    assert!(!same_text("signature", "Signature"));
    assert!(!same_text("", "a"));
    assert!(same_text("pa\u{df}", "pa\u{df}"));
    assert!(!same_text("pa\u{df}", "pass"));
}
