//! Stopwatch, per-file stage timings and batch statistics.
//!
//! Durations are carried as whole microseconds in `u64` values.

use vstd::prelude::*;

verus! {

#[verifier::external_type_specification]
#[verifier::external_body]
pub struct ExInstant(std::time::Instant);

/// Timer for measuring execution time.
pub struct Timer {
    start: std::time::Instant,
}

impl Timer {
    /// Relies on std::time::Instant::now for a monotonic starting point.
    #[verifier::external_body]
    pub fn start() -> Timer {
        Timer { start: std::time::Instant::now() }
    }

    /// Relies on std::time::Instant::elapsed; the time since `start`, in whole
    /// microseconds, saturating at `u64::MAX`.
    #[verifier::external_body]
    pub fn elapsed(&self) -> u64 {
        u64::try_from(self.start.elapsed().as_micros()).unwrap_or(u64::MAX)
    }
}

/// Saturating addition on microsecond counters.
pub open spec fn sat_add_u64_spec(a: u64, b: u64) -> u64 {
    if a + b > u64::MAX { u64::MAX } else { (a + b) as u64 }
}

pub fn sat_add_u64(a: u64, b: u64) -> (r: u64)
    ensures
        r == sat_add_u64_spec(a, b),
{
    if a > u64::MAX - b {
        u64::MAX
    } else {
        a + b
    }
}

/// Saturating addition on item counters.
pub open spec fn sat_add_usize_spec(a: usize, b: usize) -> usize {
    if a + b > usize::MAX { usize::MAX } else { (a + b) as usize }
}

pub fn sat_add_usize(a: usize, b: usize) -> (r: usize)
    ensures
        r == sat_add_usize_spec(a, b),
{
    if a > usize::MAX - b {
        usize::MAX
    } else {
        a + b
    }
}

/// Detailed timing for QR detection stages.
#[derive(Debug, Clone, Copy)]
pub struct QrDetectionTiming {
    /// Time spent converting to grayscale and generating variants.
    pub to_grayscale: u64,
    /// Time spent preparing the image for detection.
    pub prepare_image: u64,
    /// Time spent detecting QR code grids.
    pub detect_grids: u64,
    /// Time spent decoding QR codes.
    pub decode_qr: u64,
    /// Total detection time.
    pub total: u64,
}

impl QrDetectionTiming {
    pub fn new() -> (r: QrDetectionTiming)
        ensures
            r.to_grayscale == 0,
            r.prepare_image == 0,
            r.detect_grids == 0,
            r.decode_qr == 0,
            r.total == 0,
    {
        QrDetectionTiming {
            to_grayscale: 0,
            prepare_image: 0,
            detect_grids: 0,
            decode_qr: 0,
            total: 0,
        }
    }
}

/// Timing information for scanning a single file.
#[derive(Debug, Clone, Copy)]
pub struct ScanTiming {
    /// Detailed QR detection timing.
    pub qr_detection: QrDetectionTiming,
    /// Total processing time.
    pub total: u64,
}

impl ScanTiming {
    pub fn new() -> (r: ScanTiming)
        ensures
            r.qr_detection.to_grayscale == 0,
            r.qr_detection.prepare_image == 0,
            r.qr_detection.detect_grids == 0,
            r.qr_detection.decode_qr == 0,
            r.qr_detection.total == 0,
            r.total == 0,
    {
        ScanTiming { qr_detection: QrDetectionTiming::new(), total: 0 }
    }
}

/// Overall scan statistics.
#[derive(Debug, Clone, Copy)]
pub struct ScanStats {
    /// Total number of files.
    pub total_files: usize,
    /// Number of successfully scanned files.
    pub successful_scans: usize,
    /// Number of failed scans.
    pub failed_scans: usize,
    /// Number of files containing QR codes.
    pub files_with_qr: usize,
    /// Total number of QR codes found.
    pub total_qr_codes: usize,
    /// Total time spent scanning, in microseconds.
    pub total_duration: u64,
    /// Average time per file, in microseconds.
    pub avg_duration_per_file: u64,
}

impl ScanStats {
    /// The accumulator's invariant: every counted file is exactly one success
    /// or one failure, no more files hold codes than were counted, and at
    /// least one code was found per file that holds codes.
    pub open spec fn wf(self) -> bool {
        &&& self.successful_scans + self.failed_scans == self.total_files
        &&& self.files_with_qr <= self.total_files
        &&& self.total_qr_codes >= self.files_with_qr
    }

    pub fn new() -> (r: ScanStats)
        ensures
            r.wf(),
            r.total_files == 0,
            r.successful_scans == 0,
            r.failed_scans == 0,
            r.files_with_qr == 0,
            r.total_qr_codes == 0,
            r.total_duration == 0,
            r.avg_duration_per_file == 0,
    {
        ScanStats {
            total_files: 0,
            successful_scans: 0,
            failed_scans: 0,
            files_with_qr: 0,
            total_qr_codes: 0,
            total_duration: 0,
            avg_duration_per_file: 0,
        }
    }

    /// Computes the average duration per file, once, at report time.
    pub fn finalize(&mut self)
        ensures
            final(self).total_files == old(self).total_files,
            final(self).successful_scans == old(self).successful_scans,
            final(self).failed_scans == old(self).failed_scans,
            final(self).files_with_qr == old(self).files_with_qr,
            final(self).total_qr_codes == old(self).total_qr_codes,
            final(self).total_duration == old(self).total_duration,
            old(self).total_files > 0 ==> final(self).avg_duration_per_file
                == old(self).total_duration / (old(self).total_files as u64),
            old(self).total_files == 0 ==> final(self).avg_duration_per_file
                == old(self).avg_duration_per_file,
            old(self).wf() ==> final(self).wf(),
    {
        if self.total_files > 0 {
            self.avg_duration_per_file = self.total_duration / (self.total_files as u64);
        }
    }
}

/// Law: after any number of files has been scanned, the statistics balance:
/// `successful_scans + failed_scans == total_files`, and at least as many
/// codes were found as there are files counted as containing codes.
pub proof fn lemma_stats_balance(s: ScanStats)
    requires
        s.wf(),
    ensures
        s.successful_scans + s.failed_scans == s.total_files,
        s.total_qr_codes >= s.files_with_qr,
{
}

} // verus!
