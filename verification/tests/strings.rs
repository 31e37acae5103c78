use qrscan::strutil::truncate_path;
use qrscan::strutil::u64_dec;
use qrscan::scanner::is_image_extension;

#[test]
fn decimal_rendering_exact() {
    assert_eq!(u64_dec(0), "0");
    assert_eq!(u64_dec(7), "7");
    assert_eq!(u64_dec(10), "10");
    assert_eq!(u64_dec(42), "42");
    assert_eq!(u64_dec(10_000), "10000");
    assert_eq!(u64_dec(u64::MAX), "18446744073709551615");
}

#[test]
fn truncate_short_path_unchanged() {
    assert_eq!(truncate_path("a/b/c.png", 50), "a/b/c.png");
    assert_eq!(truncate_path("", 10), "");
}

#[test]
fn truncate_long_path_keeps_tail() {
    let path = "some/very/long/directory/name/image.png";
    let out = truncate_path(path, 12);
    assert_eq!(out.chars().count(), 12);
    assert_eq!(out, "...image.png");
}

#[test]
fn truncate_counts_characters_not_bytes() {
    let path = "目录/目录/图片.png";
    let out = truncate_path(path, 10);
    assert_eq!(out.chars().count(), 10);
    assert_eq!(out, ".../图片.png");
}

#[test]
fn truncate_tiny_width_yields_ellipsis() {
    assert_eq!(truncate_path("abcdef", 2), "...");
}

#[test]
fn image_extension_allow_list() {
    assert!(is_image_extension("png"));
    assert!(is_image_extension("PNG"));
    assert!(is_image_extension("jpg"));
    assert!(is_image_extension("JpEg"));
    assert!(is_image_extension("bmp"));
    assert!(is_image_extension("gif"));
    assert!(is_image_extension("webp"));
    assert!(is_image_extension("tiff"));
    assert!(is_image_extension("TIF"));
    assert!(!is_image_extension("txt"));
    assert!(!is_image_extension("svg"));
    assert!(!is_image_extension(""));
    assert!(!is_image_extension("pngx"));
}
