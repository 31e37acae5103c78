use std::io::Cursor;

use qrscan::analyzer::DiagCategory;
use qrscan::analyzer::EngineAnalysis;
use qrscan::analyzer::GridAnalysis;
use qrscan::analyzer::QrAnalyzer;
use qrscan::engines::QuircsFail;
use qrscan::engines::RqrrFail;
use qrscan::engines::RxingFail;

/// Renders a QR code for `text`, four pixels per module with a four-module
/// quiet zone; `corrupt` inverts three module rows through the data region,
/// leaving the finder patterns and the format information intact.
fn qr_gray(text: &str, corrupt: bool) -> (Vec<u8>, u32, u32) {
    let qr = rxing::qrcode::encoder::qrcode_encoder::encode(
        text,
        rxing::qrcode::decoder::ErrorCorrectionLevel::L,
    )
    .expect("QR encoding failed");
    let matrix = qr.getMatrix().as_ref().expect("no module matrix");
    let mw = matrix.getWidth();
    let mh = matrix.getHeight();
    let scale: u32 = 4;
    let quiet: u32 = 4;
    let w = (mw + 2 * quiet) * scale;
    let h = (mh + 2 * quiet) * scale;
    let mut px = vec![255u8; (w as usize) * (h as usize)];
    for my in 0..mh {
        for mx in 0..mw {
            let mut black = matrix.get(mx, my) == 1;
            if corrupt && (9..12).contains(&my) && mx != 6 {
                black = !black;
            }
            if black {
                for dy in 0..scale {
                    for dx in 0..scale {
                        let x = (mx + quiet) * scale + dx;
                        let y = (my + quiet) * scale + dy;
                        px[(y * w + x) as usize] = 0;
                    }
                }
            }
        }
    }
    (px, w, h)
}

fn png_bytes(px: Vec<u8>, w: u32, h: u32) -> Vec<u8> {
    let img = image::GrayImage::from_raw(w, h, px).expect("bad buffer");
    let mut out = Cursor::new(Vec::new());
    image::DynamicImage::ImageLuma8(img)
        .write_to(&mut out, image::ImageOutputFormat::Png)
        .expect("PNG encoding failed");
    out.into_inner()
}

#[test]
fn rqrr_errors_classify_exactly() {
    let analyzer = QrAnalyzer::new();
    let (code, detail) = analyzer.analyze_rqrr_error(&RqrrFail::DataEcc);
    assert_eq!(code, "DataEcc");
    assert!(!detail.is_empty());
    assert_eq!(analyzer.rqrr_category(&RqrrFail::DataEcc), DiagCategory::DataCorrection);
    assert_eq!(analyzer.rqrr_category(&RqrrFail::FormatEcc), DiagCategory::FormatMetadata);
    assert_eq!(analyzer.rqrr_category(&RqrrFail::InvalidVersion), DiagCategory::VersionStructure);
    assert_eq!(analyzer.rqrr_category(&RqrrFail::DataOverflow), DiagCategory::DataVolume);
    assert_eq!(analyzer.rqrr_category(&RqrrFail::EncodingError), DiagCategory::Encoding);
    assert_eq!(analyzer.rqrr_category(&RqrrFail::IoError), DiagCategory::Unknown);
    let (code, _) = analyzer.analyze_rqrr_error(&RqrrFail::FormatEcc);
    assert_eq!(code, "FormatEcc");
}

#[test]
fn quircs_errors_classify_exactly() {
    let analyzer = QrAnalyzer::new();
    let (code, detail) = analyzer.analyze_quircs_error(&QuircsFail::OutOfBounds);
    assert_eq!(code, "OutOfBounds");
    assert!(!detail.is_empty());
    assert_eq!(analyzer.quircs_category(&QuircsFail::OutOfBounds), DiagCategory::OutOfBounds);
    assert_eq!(analyzer.quircs_category(&QuircsFail::DataEcc), DiagCategory::DataCorrection);
    assert_eq!(analyzer.quircs_category(&QuircsFail::FormatEcc), DiagCategory::FormatMetadata);
    assert_eq!(analyzer.quircs_category(&QuircsFail::DataUnderflow), DiagCategory::DataVolume);
    let (code, _) = analyzer.analyze_quircs_error(&QuircsFail::UnknownDataType);
    assert_eq!(code, "UnknownDataType");
}

#[test]
fn rxing_errors_classify_exactly() {
    let analyzer = QrAnalyzer::new();
    let (code, detail) = analyzer.analyze_rxing_error(&RxingFail::Checksum(String::new()));
    assert_eq!(code, "ChecksumException");
    assert!(detail.contains("无详细信息"));
    let (_, detail) = analyzer.analyze_rxing_error(&RxingFail::Checksum("bad block".to_string()));
    assert!(detail.contains("bad block"));
    assert_eq!(
        analyzer.rxing_category(&RxingFail::Checksum(String::new())),
        DiagCategory::DataCorrection,
    );
    assert_eq!(
        analyzer.rxing_category(&RxingFail::ReedSolomon(String::new())),
        DiagCategory::DataCorrection,
    );
    assert_eq!(
        analyzer.rxing_category(&RxingFail::Format(String::new())),
        DiagCategory::FormatMetadata,
    );
    assert_eq!(
        analyzer.rxing_category(&RxingFail::NotFound(String::new())),
        DiagCategory::Unknown,
    );
}

fn grid_with_category(c: DiagCategory) -> GridAnalysis {
    GridAnalysis {
        grid_index: 0,
        version: None,
        module_size: None,
        decode_success: false,
        error_type: Some("SomeError".to_string()),
        category: Some(c),
        error_detail: "detail".to_string(),
        content: None,
    }
}

fn analysis(grids: usize, results: Vec<GridAnalysis>, success: bool) -> EngineAnalysis {
    EngineAnalysis {
        engine_name: "engine".to_string(),
        grids_detected: grids,
        decode_results: results,
        success,
        summary: "summary".to_string(),
    }
}

#[test]
fn recommendations_for_no_detected_pattern() {
    let analyzer = QrAnalyzer::new();
    let analyses = vec![analysis(0, vec![], false), analysis(0, vec![], false)];
    let recs = analyzer.generate_recommendations(&analyses);
    assert_eq!(recs.len(), 1);
    assert!(recs[0].contains("未检测到任何 QR 码图案"));
}

#[test]
fn recommendations_for_data_correction_failure() {
    let analyzer = QrAnalyzer::new();
    let analyses = vec![analysis(1, vec![grid_with_category(DiagCategory::DataCorrection)], false)];
    let recs = analyzer.generate_recommendations(&analyses);
    assert_eq!(recs.len(), 1);
    assert!(recs[0].contains("DataEcc"));
}

#[test]
fn recommendations_are_additive() {
    let analyzer = QrAnalyzer::new();
    let analyses = vec![
        analysis(1, vec![grid_with_category(DiagCategory::DataCorrection)], false),
        analysis(1, vec![grid_with_category(DiagCategory::FormatMetadata)], false),
    ];
    let recs = analyzer.generate_recommendations(&analyses);
    assert_eq!(recs.len(), 2);
    assert!(recs[0].contains("DataEcc"));
    assert!(recs[1].contains("FormatEcc"));
}

#[test]
fn recommendations_generic_when_nothing_decodes() {
    let analyzer = QrAnalyzer::new();
    let analyses = vec![analysis(1, vec![grid_with_category(DiagCategory::Unknown)], false)];
    let recs = analyzer.generate_recommendations(&analyses);
    assert_eq!(recs.len(), 1);
    assert!(recs[0].contains("所有引擎都检测到了 QR 码但解码失败"));
}

#[test]
fn recommendations_empty_on_success_without_failures() {
    let analyzer = QrAnalyzer::new();
    let analyses = vec![analysis(1, vec![], true)];
    let recs = analyzer.generate_recommendations(&analyses);
    assert!(recs.is_empty());
}

#[test]
fn analyze_clean_qr_succeeds() {
    let (px, w, h) = qr_gray("HELLO", false);
    let data = png_bytes(px, w, h);
    let analyzer = QrAnalyzer::new();
    let rep = analyzer.analyze_file("hello.png", &data).expect("analysis failed");
    assert!(rep.overall_success);
    assert_eq!(rep.engine_analyses.len(), 3);
    assert!(rep.variants_tested >= 4);
    assert!(rep.engine_analyses.iter().any(|a| a.success));
    let decoded = rep.engine_analyses.iter().flat_map(|a| a.decode_results.iter()).any(
        |g| g.content.as_deref() == Some("HELLO"),
    );
    assert!(decoded);
}

#[test]
fn analyze_corrupted_qr_reports_failure_categories() {
    let (px, w, h) = qr_gray("HELLO", true);
    let data = png_bytes(px, w, h);
    let analyzer = QrAnalyzer::new();
    let rep = analyzer.analyze_file("broken.png", &data).expect("analysis failed");
    assert!(!rep.overall_success);
    assert!(!rep.recommendations.is_empty());
    let has_correction_category = rep.engine_analyses.iter().flat_map(
        |a| a.decode_results.iter(),
    ).any(|g| {
        g.category == Some(DiagCategory::DataCorrection)
            || g.category == Some(DiagCategory::FormatMetadata)
    });
    assert!(has_correction_category);
    for a in &rep.engine_analyses {
        for g in &a.decode_results {
            if !g.decode_success {
                assert!(!g.error_detail.is_empty());
            }
        }
    }
}

#[test]
fn analyze_blank_image_recommends_no_pattern() {
    let data = png_bytes(vec![255u8; 150 * 150], 150, 150);
    let analyzer = QrAnalyzer::new();
    let rep = analyzer.analyze_file("blank.png", &data).expect("analysis failed");
    assert!(!rep.overall_success);
    assert_eq!(rep.recommendations.len(), 1);
    assert!(rep.recommendations[0].contains("未检测到任何 QR 码图案"));
}

#[test]
fn analyze_reports_the_original_image_size() {
    let data = png_bytes(vec![255u8; 300 * 200], 300, 200);
    let analyzer = QrAnalyzer::new();
    let rep = analyzer.analyze_file("blank.png", &data).expect("analysis failed");
    assert_eq!(rep.image_size, (300, 200));
}

#[test]
fn analyze_rejects_non_image_bytes() {
    let analyzer = QrAnalyzer::new();
    let err = analyzer.analyze_file("junk.bin", &vec![0, 1, 2, 3]).unwrap_err();
    assert!(!err.is_empty());
}

#[test]
fn every_rqrr_variant_has_a_code_and_category() {
    let analyzer = QrAnalyzer::new();
    let cases = vec![
        (RqrrFail::IoError, "IoError", DiagCategory::Unknown),
        (RqrrFail::DataUnderflow, "DataUnderflow", DiagCategory::DataVolume),
        (RqrrFail::DataOverflow, "DataOverflow", DiagCategory::DataVolume),
        (RqrrFail::UnknownDataType, "UnknownDataType", DiagCategory::Encoding),
        (RqrrFail::DataEcc, "DataEcc", DiagCategory::DataCorrection),
        (RqrrFail::FormatEcc, "FormatEcc", DiagCategory::FormatMetadata),
        (RqrrFail::InvalidVersion, "InvalidVersion", DiagCategory::VersionStructure),
        (RqrrFail::InvalidGridSize, "InvalidGridSize", DiagCategory::VersionStructure),
        (RqrrFail::EncodingError, "EncodingError", DiagCategory::Encoding),
    ];
    for (e, code, cat) in cases {
        let (c, detail) = analyzer.analyze_rqrr_error(&e);
        assert_eq!(c, code);
        assert!(!detail.is_empty());
        assert_eq!(analyzer.rqrr_category(&e), cat);
    }
}

#[test]
fn every_quircs_variant_has_a_code_and_category() {
    let analyzer = QrAnalyzer::new();
    let cases = vec![
        (QuircsFail::InvalidGridSize, "InvalidGridSize", DiagCategory::VersionStructure),
        (QuircsFail::InvalidVersion, "InvalidVersion", DiagCategory::VersionStructure),
        (QuircsFail::DataEcc, "DataEcc", DiagCategory::DataCorrection),
        (QuircsFail::FormatEcc, "FormatEcc", DiagCategory::FormatMetadata),
        (QuircsFail::UnknownDataType, "UnknownDataType", DiagCategory::Encoding),
        (QuircsFail::DataOverflow, "DataOverflow", DiagCategory::DataVolume),
        (QuircsFail::DataUnderflow, "DataUnderflow", DiagCategory::DataVolume),
        (QuircsFail::OutOfBounds, "OutOfBounds", DiagCategory::OutOfBounds),
    ];
    for (e, code, cat) in cases {
        let (c, detail) = analyzer.analyze_quircs_error(&e);
        assert_eq!(c, code);
        assert!(!detail.is_empty());
        assert_eq!(analyzer.quircs_category(&e), cat);
    }
}

#[test]
fn rxing_other_keeps_the_engine_rendering() {
    let analyzer = QrAnalyzer::new();
    let (code, detail) = analyzer.analyze_rxing_error(&RxingFail::Other(
        "IllegalStateException(\"oops\")".to_string(),
    ));
    assert_eq!(code, "IllegalStateException(\"oops\")");
    assert_eq!(detail, "其他错误，请查看详细日志。");
    let (code, _) = analyzer.analyze_rxing_error(&RxingFail::NotFound(String::new()));
    assert_eq!(code, "NotFoundException");
}

#[test]
fn rqrr_data_ecc_detail_is_the_fixed_explanation() {
    let analyzer = QrAnalyzer::new();
    let (_, detail) = analyzer.analyze_rqrr_error(&RqrrFail::DataEcc);
    assert_eq!(
        detail,
        "数据纠错失败: RS 纠错码无法恢复数据。\n可能原因: 码点损坏超出纠错能力、污染或遮挡严重。\n这是最常见的失败原因，通常意味着 QR 码损坏程度超过了纠错等级的容错能力。"
    );
}
