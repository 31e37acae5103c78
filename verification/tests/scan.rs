use std::io::Cursor;

use qrscan::scanner::QrScanner;

/// Renders a QR code for `text` as an 8-bit grayscale buffer, four pixels per
/// module with a four-module quiet zone.
fn qr_gray(text: &str) -> (Vec<u8>, u32, u32) {
    let qr = rxing::qrcode::encoder::qrcode_encoder::encode(
        text,
        rxing::qrcode::decoder::ErrorCorrectionLevel::L,
    )
    .expect("QR encoding failed");
    let matrix = qr.getMatrix().as_ref().expect("no module matrix");
    let mw = matrix.getWidth();
    let mh = matrix.getHeight();
    let scale: u32 = 4;
    let quiet: u32 = 4;
    let w = (mw + 2 * quiet) * scale;
    let h = (mh + 2 * quiet) * scale;
    let mut px = vec![255u8; (w as usize) * (h as usize)];
    for my in 0..mh {
        for mx in 0..mw {
            if matrix.get(mx, my) == 1 {
                for dy in 0..scale {
                    for dx in 0..scale {
                        let x = (mx + quiet) * scale + dx;
                        let y = (my + quiet) * scale + dy;
                        px[(y * w + x) as usize] = 0;
                    }
                }
            }
        }
    }
    (px, w, h)
}

fn png_bytes(px: Vec<u8>, w: u32, h: u32) -> Vec<u8> {
    let img = image::GrayImage::from_raw(w, h, px).expect("bad buffer");
    let mut out = Cursor::new(Vec::new());
    image::DynamicImage::ImageLuma8(img)
        .write_to(&mut out, image::ImageOutputFormat::Png)
        .expect("PNG encoding failed");
    out.into_inner()
}

#[test]
fn clean_qr_decodes_to_single_payload() {
    let (px, w, h) = qr_gray("HELLO");
    let data = png_bytes(px, w, h);
    let mut scanner = QrScanner::new(false);
    let res = scanner.scan_file("hello.png", &data).expect("scan failed");
    assert!(res.success);
    assert!(res.error.is_none());
    // Deduplication: every engine that decodes reports the same payload, and
    // the global set holds it exactly once.
    assert_eq!(res.qr_codes, vec!["HELLO".to_string()]);
    assert_eq!(res.engine_results.len(), 4);
    let names: Vec<&str> = res.engine_results.iter().map(|e| e.engine_name.as_str()).collect();
    assert_eq!(names, vec!["rqrr", "rxing", "quircs", "bardecoder"]);
    // At least one engine decoded the payload itself.
    assert!(res.engine_results.iter().any(|e| e.qr_codes == vec!["HELLO".to_string()]));
    let stats = scanner.stats();
    assert_eq!(stats.total_files, 1);
    assert_eq!(stats.successful_scans, 1);
    assert_eq!(stats.failed_scans, 0);
    assert_eq!(stats.files_with_qr, 1);
    assert_eq!(stats.total_qr_codes, 1);
}

#[test]
fn scanning_twice_yields_identical_payload_sets() {
    let (px, w, h) = qr_gray("IDEMPOTENT");
    let data = png_bytes(px, w, h);
    let mut scanner = QrScanner::new(false);
    let first = scanner.scan_file("a.png", &data).expect("first scan failed");
    let second = scanner.scan_file("a.png", &data).expect("second scan failed");
    let mut s1 = first.qr_codes.clone();
    let mut s2 = second.qr_codes.clone();
    s1.sort();
    s2.sort();
    assert_eq!(s1, s2);
    for (e1, e2) in first.engine_results.iter().zip(second.engine_results.iter()) {
        let mut c1 = e1.qr_codes.clone();
        let mut c2 = e2.qr_codes.clone();
        c1.sort();
        c2.sort();
        assert_eq!(c1, c2);
    }
}

#[test]
fn blank_image_yields_empty_payload_set_without_error() {
    let data = png_bytes(vec![255u8; 150 * 150], 150, 150);
    let mut scanner = QrScanner::new(false);
    let res = scanner.scan_file("blank.png", &data).expect("scan failed");
    assert!(res.success);
    assert!(res.qr_codes.is_empty());
    let stats = scanner.stats();
    assert_eq!(stats.total_files, 1);
    assert_eq!(stats.successful_scans, 1);
    assert_eq!(stats.files_with_qr, 0);
    assert_eq!(stats.total_qr_codes, 0);
}

#[test]
fn non_image_input_records_failure_and_batch_continues() {
    let mut scanner = QrScanner::new(false);
    let garbage: Vec<u8> = b"this is not an image at all".to_vec();
    let err = scanner.scan_file("junk.bin", &garbage).unwrap_err();
    assert!(!err.is_empty());
    let entry = scanner.record_failure("junk.bin".to_string(), err);
    assert!(!entry.success);
    assert!(entry.error.is_some());
    assert!(!entry.error.as_ref().unwrap().is_empty());
    assert!(entry.qr_codes.is_empty());

    // The batch continues: the next file still scans.
    let (px, w, h) = qr_gray("NEXT");
    let data = png_bytes(px, w, h);
    let res = scanner.scan_file("next.png", &data).expect("scan failed");
    assert!(res.success);

    let stats = scanner.stats();
    assert_eq!(stats.total_files, 2);
    assert_eq!(stats.failed_scans, 1);
    assert_eq!(stats.successful_scans, 1);
    assert_eq!(stats.successful_scans + stats.failed_scans, stats.total_files);
    assert!(stats.total_qr_codes >= stats.files_with_qr);
}

#[test]
fn oversized_image_is_downsampled_before_scanning() {
    // 2100 pixels wide: the working frame is bounded within 2000x2000 before
    // the engines run.
    let data = png_bytes(vec![255u8; 2100 * 40], 2100, 40);
    let mut scanner = QrScanner::new(false);
    let res = scanner.scan_file("wide.png", &data).expect("scan failed");
    assert!(res.success);
    assert!(res.qr_codes.is_empty());
    assert_eq!(res.engine_results.len(), 4);
}

#[test]
fn statistics_balance_across_a_batch() {
    let mut scanner = QrScanner::new(false);
    let (px, w, h) = qr_gray("BATCH");
    let good = png_bytes(px, w, h);
    let blank = png_bytes(vec![255u8; 120 * 120], 120, 120);
    scanner.scan_file("one.png", &good).expect("scan failed");
    scanner.scan_file("two.png", &blank).expect("scan failed");
    let err = scanner.scan_file("bad.bin", &vec![1, 2, 3]).unwrap_err();
    scanner.record_failure("bad.bin".to_string(), err);
    let stats = scanner.stats();
    assert_eq!(stats.total_files, 3);
    assert_eq!(stats.successful_scans + stats.failed_scans, stats.total_files);
    assert_eq!(stats.successful_scans, 2);
    assert_eq!(stats.failed_scans, 1);
    assert!(stats.total_qr_codes >= stats.files_with_qr);
    assert_eq!(stats.avg_duration_per_file, stats.total_duration / 3);
}
