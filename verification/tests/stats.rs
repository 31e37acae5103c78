use qrscan::timer::QrDetectionTiming;
use qrscan::timer::ScanStats;
use qrscan::timer::ScanTiming;
use qrscan::timer::Timer;
use qrscan::timer::sat_add_u64;
use qrscan::timer::sat_add_usize;

#[test]
fn stats_start_at_zero() {
    let s = ScanStats::new();
    assert_eq!(s.total_files, 0);
    assert_eq!(s.successful_scans, 0);
    assert_eq!(s.failed_scans, 0);
    assert_eq!(s.files_with_qr, 0);
    assert_eq!(s.total_qr_codes, 0);
    assert_eq!(s.total_duration, 0);
    assert_eq!(s.avg_duration_per_file, 0);
}

#[test]
fn finalize_computes_average_once() {
    let mut s = ScanStats::new();
    s.total_files = 4;
    s.successful_scans = 3;
    s.failed_scans = 1;
    s.total_duration = 100;
    s.finalize();
    assert_eq!(s.avg_duration_per_file, 25);
    assert_eq!(s.total_duration, 100);
}

#[test]
fn finalize_on_empty_batch_keeps_average() {
    let mut s = ScanStats::new();
    s.finalize();
    assert_eq!(s.avg_duration_per_file, 0);
}

#[test]
fn saturating_adds_clamp_at_max() {
    assert_eq!(sat_add_u64(1, 2), 3);
    assert_eq!(sat_add_u64(u64::MAX - 1, 5), u64::MAX);
    assert_eq!(sat_add_usize(7, 8), 15);
    assert_eq!(sat_add_usize(usize::MAX, 1), usize::MAX);
}

#[test]
fn timings_start_at_zero() {
    let t = QrDetectionTiming::new();
    assert_eq!(t.to_grayscale, 0);
    assert_eq!(t.prepare_image, 0);
    assert_eq!(t.detect_grids, 0);
    assert_eq!(t.decode_qr, 0);
    assert_eq!(t.total, 0);
    let st = ScanTiming::new();
    assert_eq!(st.total, 0);
    assert_eq!(st.qr_detection.total, 0);
}

#[test]
fn timer_reports_elapsed_time() {
    let timer = Timer::start();
    let mut acc: u64 = 0;
    for i in 0..1000u64 {
        acc = acc.wrapping_add(i);
    }
    assert!(acc > 0);
    let first = timer.elapsed();
    let second = timer.elapsed();
    assert!(second >= first);
}
