use qrscan::preprocessor::GrayVariant;
use qrscan::preprocessor::ImagePreprocessor;

fn frame(width: u32, height: u32, pixels: Vec<u8>) -> GrayVariant {
    assert_eq!(pixels.len(), (width as usize) * (height as usize));
    GrayVariant { label: "original".to_string(), width, height, pixels }
}

#[test]
fn contrast_stretch_exact_values() {
    let v = frame(4, 1, vec![10, 10, 20, 30]);
    let out = ImagePreprocessor::enhance_contrast(&v);
    // lower = 10 and upper = 30: 10 -> 0, 20 -> 255 * 10 / 20 = 127, 30 -> 255.
    assert_eq!(out.pixels, vec![0, 0, 127, 255]);
    assert_eq!(out.width, 4);
    assert_eq!(out.height, 1);
}

#[test]
fn contrast_stretch_flat_image_unchanged() {
    let v = frame(3, 1, vec![77, 77, 77]);
    let out = ImagePreprocessor::enhance_contrast(&v);
    assert_eq!(out.pixels, vec![77, 77, 77]);
}

#[test]
fn invert_exact_values() {
    let v = frame(3, 1, vec![0, 100, 255]);
    let out = ImagePreprocessor::invert(&v);
    assert_eq!(out.pixels, vec![255, 155, 0]);
}

#[test]
fn otsu_output_is_bilevel() {
    let mut px = Vec::new();
    for i in 0..64u32 {
        px.push((i * 4) as u8);
    }
    let v = frame(8, 8, px);
    let out = ImagePreprocessor::otsu_binarization(&v);
    assert_eq!(out.pixels.len(), 64);
    assert!(out.pixels.iter().all(|&p| p == 0 || p == 255));
    assert!(out.pixels.iter().any(|&p| p == 0));
    assert!(out.pixels.iter().any(|&p| p == 255));
}

#[test]
fn adaptive_threshold_keeps_dimensions() {
    let mut px = Vec::new();
    for y in 0..120u32 {
        for x in 0..110u32 {
            px.push(((x + y) % 251) as u8);
        }
    }
    let v = frame(110, 120, px);
    let out = ImagePreprocessor::adaptive_threshold_image(&v, 5);
    assert_eq!(out.width, 110);
    assert_eq!(out.height, 120);
    assert_eq!(out.pixels.len(), 110 * 120);
    assert!(out.pixels.iter().all(|&p| p == 0 || p == 255));
}

#[test]
fn variant_list_for_ordinary_image() {
    let mut px = Vec::new();
    for y in 0..150u32 {
        for x in 0..150u32 {
            px.push(((x * y) % 256) as u8);
        }
    }
    let v = frame(150, 150, px);
    let variants = ImagePreprocessor::variants_of_gray(&v);
    assert_eq!(variants.len(), 5);
    let labels: Vec<&str> = variants.iter().map(|w| w.label.as_str()).collect();
    assert_eq!(labels, vec!["original", "contrast_enhanced", "otsu", "inverted", "adaptive"]);
    for w in &variants {
        assert_eq!(w.width, 150);
        assert_eq!(w.height, 150);
        assert_eq!(w.pixels.len(), 150 * 150);
    }
}

#[test]
fn small_image_skips_adaptive_variant() {
    let v = frame(50, 50, vec![128; 2500]);
    let variants = ImagePreprocessor::variants_of_gray(&v);
    assert_eq!(variants.len(), 4);
    assert!(variants.iter().all(|w| w.label != "adaptive"));
}

#[test]
fn oversized_image_skips_adaptive_variant() {
    // 3163 * 3163 pixels is just above the fixed pixel-count ceiling.
    let side: u32 = 3163;
    let px = vec![200u8; (side as usize) * (side as usize)];
    let v = frame(side, side, px);
    let variants = ImagePreprocessor::variants_of_gray(&v);
    assert_eq!(variants.len(), 4);
    let labels: Vec<&str> = variants.iter().map(|w| w.label.as_str()).collect();
    assert_eq!(labels, vec!["original", "contrast_enhanced", "otsu", "inverted"]);
    for w in &variants {
        assert_eq!(w.width, side);
        assert_eq!(w.height, side);
    }
}

#[test]
fn generate_variants_matches_the_gray_pipeline() {
    let mut px = Vec::new();
    for y in 0..130u32 {
        for x in 0..120u32 {
            px.push(((x + 2 * y) % 256) as u8);
        }
    }
    let v = frame(120, 130, px);
    let variants = ImagePreprocessor::generate_variants(&v);
    assert_eq!(variants.len(), 5);
    for w in &variants {
        assert_eq!(w.width, 120);
        assert_eq!(w.height, 130);
        assert_eq!(w.pixels.len(), 120 * 130);
    }
}
