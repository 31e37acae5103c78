//! Detection orchestrator: runs every engine against every preprocessed
//! variant, deduplicates decoded payloads into one result set, assembles
//! per-engine breakdowns, and keeps running batch statistics.

use vstd::prelude::*;
use vstd::string::StringExecFns;
use vstd::string::StrSliceExecFns;
use vstd::string::StringSliceAdditionalSpecFns;
use crate::engines::RqrrHit;
use crate::engines::RqrrFail;
use crate::engines::QuircsHit;
use crate::engines::QuircsFail;
use crate::engines::rqrr_outcomes;
use crate::engines::quircs_outcomes;
use crate::engines::rxing_outcome;
use crate::engines::bardecoder_outcomes;
use crate::engines::rqrr_reads;
use crate::engines::quircs_reads;
use crate::engines::rxing_read;
use crate::engines::bardecoder_reads;
use crate::engines::rqrr_read_view;
use crate::engines::quircs_read_view;
use crate::engines::bardecoder_read_view;
use crate::engines::rqrr_hit_texts;
use crate::engines::quircs_hit_texts;
use crate::engines::rxing_hit_texts;
use crate::engines::bardecoder_hit_texts;
use crate::engines::bytes_to_text;
use crate::imgio::image_ok;
use crate::imgio::working_frame_of;
use crate::imgio::load_working_frame;
use crate::preprocessor::FrameV;
use crate::preprocessor::GrayVariant;
use crate::preprocessor::ImagePreprocessor;
use crate::preprocessor::frames_of;
use crate::preprocessor::gen_spec;
use crate::timer::QrDetectionTiming;
use crate::timer::ScanStats;
use crate::timer::ScanTiming;
use crate::timer::Timer;
use crate::timer::sat_add_u64;
use crate::timer::sat_add_u64_spec;
use crate::timer::sat_add_usize;
use crate::timer::sat_add_usize_spec;

verus! {

/// Results from an individual detection engine.
#[derive(Debug)]
pub struct EngineResult {
    pub engine_name: String,
    pub qr_codes: Vec<String>,
    /// Time spent by this engine alone, in microseconds.
    pub duration_us: u64,
}

/// Scan result for a single file.
#[derive(Debug)]
pub struct ScanResult {
    /// File path.
    pub file_path: String,
    /// Detected QR code data (deduplicated across all engines).
    pub qr_codes: Vec<String>,
    /// Results from each detection engine.
    pub engine_results: Vec<EngineResult>,
    /// Timing information.
    pub timing: ScanTiming,
    /// Success status.
    pub success: bool,
    /// Error message if failed.
    pub error: Option<String>,
}

/// The views of a sequence of strings.
pub open spec fn views_of(s: Seq<String>) -> Seq<Seq<char>> {
    s.map_values(|x: String| x@)
}

/// The set of texts held in a sequence of strings.
pub open spec fn vset(s: Seq<String>) -> Set<Seq<char>> {
    Set::new(|t: Seq<char>| exists|i: int| 0 <= i < s.len() && s[i]@ == t)
}

/// The set of texts held in a sequence of texts.
pub open spec fn tset(ts: Seq<Seq<char>>) -> Set<Seq<char>> {
    Set::new(|t: Seq<char>| exists|i: int| 0 <= i < ts.len() && ts[i] == t)
}

/// No two entries hold the same text.
pub open spec fn no_dup_views(s: Seq<String>) -> bool {
    forall|i: int, j: int| 0 <= i < j < s.len() ==> s[i]@ != s[j]@
}

/// The detection engines, in their fixed run order.
pub enum EngineKind {
    Rqrr,
    Rxing,
    Quircs,
    Bardecoder,
}

/// The texts one engine decodes from one frame.
pub open spec fn engine_frame_texts(e: EngineKind, f: FrameV) -> Set<Seq<char>> {
    match e {
        EngineKind::Rqrr => tset(rqrr_hit_texts(rqrr_reads(f.pixels, f.width, f.height))),
        EngineKind::Rxing => tset(rxing_hit_texts(rxing_read(f.pixels, f.width, f.height))),
        EngineKind::Quircs => tset(quircs_hit_texts(quircs_reads(f.pixels, f.width, f.height))),
        EngineKind::Bardecoder => tset(bardecoder_hit_texts(bardecoder_reads(f.pixels, f.width, f.height))),
    }
}

/// The texts one engine decodes across a frame sequence.
pub open spec fn engine_texts(e: EngineKind, fs: Seq<FrameV>) -> Set<Seq<char>> {
    Set::new(|t: Seq<char>| exists|i: int| 0 <= i < fs.len() && engine_frame_texts(e, fs[i]).contains(t))
}

/// The union of every engine's texts across a frame sequence.
pub open spec fn all_texts(fs: Seq<FrameV>) -> Set<Seq<char>> {
    engine_texts(EngineKind::Rqrr, fs)
        + engine_texts(EngineKind::Rxing, fs)
        + engine_texts(EngineKind::Quircs, fs)
        + engine_texts(EngineKind::Bardecoder, fs)
}

/// What the orchestrator promises of its output for the grayscale base frame
/// `b`: the global payload list is the deduplicated union of what every
/// engine decodes from every variant, and each engine's own list is the
/// deduplicated union across the variants, in the fixed engine order.
pub open spec fn detect_post(b: FrameV, codes: Seq<String>, engines: Seq<EngineResult>) -> bool {
    let fs = gen_spec(b);
    &&& vset(codes) == all_texts(fs)
    &&& no_dup_views(codes)
    &&& engines.len() == 4
    &&& engines[0].engine_name@ == "rqrr"@
    &&& vset(engines[0].qr_codes@) == engine_texts(EngineKind::Rqrr, fs)
    &&& no_dup_views(engines[0].qr_codes@)
    &&& engines[1].engine_name@ == "rxing"@
    &&& vset(engines[1].qr_codes@) == engine_texts(EngineKind::Rxing, fs)
    &&& no_dup_views(engines[1].qr_codes@)
    &&& engines[2].engine_name@ == "quircs"@
    &&& vset(engines[2].qr_codes@) == engine_texts(EngineKind::Quircs, fs)
    &&& no_dup_views(engines[2].qr_codes@)
    &&& engines[3].engine_name@ == "bardecoder"@
    &&& vset(engines[3].qr_codes@) == engine_texts(EngineKind::Bardecoder, fs)
    &&& no_dup_views(engines[3].qr_codes@)
}

proof fn lemma_vset_push(s: Seq<String>, x: String)
    ensures
        vset(s.push(x)) =~= vset(s).insert(x@),
{
    assert forall|t: Seq<char>| vset(s.push(x)).contains(t) implies vset(s).insert(x@).contains(
        t,
    ) by {
        let i = choose|i: int| 0 <= i < s.push(x).len() && s.push(x)[i]@ == t;
        if i < s.len() {
            assert(s[i]@ == t);
        } else {
            assert(x@ == t);
        }
    }
    assert forall|t: Seq<char>| vset(s).insert(x@).contains(t) implies vset(s.push(x)).contains(
        t,
    ) by {
        if vset(s).contains(t) {
            let i = choose|i: int| 0 <= i < s.len() && s[i]@ == t;
            assert(s.push(x)[i]@ == t);
        } else {
            assert(s.push(x)[s.len() as int]@ == t);
        }
    }
}

proof fn lemma_vset_is_tset(codes: Seq<String>, ts: Seq<Seq<char>>)
    requires
        views_of(codes) == ts,
    ensures
        vset(codes) =~= tset(ts),
{
    assert forall|t: Seq<char>| vset(codes).contains(t) implies tset(ts).contains(t) by {
        let i = choose|i: int| 0 <= i < codes.len() && codes[i]@ == t;
        assert(ts[i] == t);
    }
    assert forall|t: Seq<char>| tset(ts).contains(t) implies vset(codes).contains(t) by {
        let i = choose|i: int| 0 <= i < ts.len() && ts[i] == t;
        assert(codes[i]@ == t);
    }
}

proof fn lemma_engine_texts_step(e: EngineKind, fs: Seq<FrameV>, i: int)
    requires
        0 <= i < fs.len(),
    ensures
        engine_texts(e, fs.take(i + 1)) =~= engine_texts(e, fs.take(i)) + engine_frame_texts(
            e,
            fs[i],
        ),
{
    assert forall|t: Seq<char>| engine_texts(e, fs.take(i + 1)).contains(t) implies (engine_texts(
        e,
        fs.take(i),
    ) + engine_frame_texts(e, fs[i])).contains(t) by {
        let j = choose|j: int|
            0 <= j < fs.take(i + 1).len() && #[trigger] engine_frame_texts(e, fs.take(i + 1)[j]).contains(t);
        if j < i {
            assert(fs.take(i)[j] == fs[j]);
            assert(engine_frame_texts(e, fs.take(i)[j]).contains(t));
        } else {
            assert(fs.take(i + 1)[j] == fs[i]);
        }
    }
    assert forall|t: Seq<char>| (engine_texts(e, fs.take(i)) + engine_frame_texts(
        e,
        fs[i],
    )).contains(t) implies engine_texts(e, fs.take(i + 1)).contains(t) by {
        if engine_texts(e, fs.take(i)).contains(t) {
            let j = choose|j: int|
                0 <= j < fs.take(i).len() && #[trigger] engine_frame_texts(e, fs.take(i)[j]).contains(t);
            assert(fs.take(i + 1)[j] == fs[j]);
            assert(engine_frame_texts(e, fs.take(i + 1)[j]).contains(t));
        } else {
            assert(fs.take(i + 1)[i] == fs[i]);
            assert(engine_frame_texts(e, fs.take(i + 1)[i]).contains(t));
        }
    }
}

/// Whether a list of strings holds one with the given text.
pub fn contains_view(v: &Vec<String>, s: &String) -> (r: bool)
    ensures
        r == vset(v@).contains(s@),
{
    let mut i: usize = 0;
    while i < v.len()
        invariant
            i <= v@.len(),
            forall|j: int| 0 <= j < i ==> v@[j]@ != s@,
        decreases v@.len() - i,
    {
        if s.eq(&v[i]) {
            proof {
                assert(v@[i as int]@ == s@);
            }
            return true;
        }
        i += 1;
    }
    false
}

/// Adds every text of `items` that `acc` does not yet hold.
pub fn merge_unique(acc: &mut Vec<String>, items: &Vec<String>)
    ensures
        vset(final(acc)@) == vset(old(acc)@) + vset(items@),
        no_dup_views(old(acc)@) ==> no_dup_views(final(acc)@),
{
    let mut i: usize = 0;
    while i < items.len()
        invariant
            i <= items@.len(),
            vset(acc@) == vset(old(acc)@) + vset(items@.take(i as int)),
            no_dup_views(old(acc)@) ==> no_dup_views(acc@),
        decreases items@.len() - i,
    {
        let ghost pre = acc@;
        let present = contains_view(acc, &items[i]);
        if !present {
            let item = items[i].clone();
            acc.push(item);
        }
        proof {
            assert(items@.take(i as int + 1) =~= items@.take(i as int).push(items@[i as int]));
            lemma_vset_push(items@.take(i as int), items@[i as int]);
            if !present {
                lemma_vset_push(pre, items@[i as int]);
            }
            assert(vset(acc@) =~= vset(old(acc)@) + vset(items@.take(i as int + 1)));
        }
        i += 1;
    }
    proof {
        assert(items@.take(items@.len() as int) =~= items@);
    }
}

/// QR code scanner.
pub struct QrScanner {
    stats: ScanStats,
}

impl QrScanner {
    /// The scanner's running statistics.
    pub closed spec fn stats_view(self) -> ScanStats {
        self.stats
    }

    /// The scanner's invariant: its statistics balance.
    pub open spec fn wf(self) -> bool {
        self.stats_view().wf()
    }

    pub fn new(_verbose: bool) -> (r: QrScanner)
        ensures
            r.wf(),
            r.stats_view().total_files == 0,
            r.stats_view().successful_scans == 0,
            r.stats_view().failed_scans == 0,
            r.stats_view().files_with_qr == 0,
            r.stats_view().total_qr_codes == 0,
            r.stats_view().total_duration == 0,
            r.stats_view().avg_duration_per_file == 0,
    {
        QrScanner { stats: ScanStats::new() }
    }

    /// Detect QR codes using rqrr (fast, good for standard QR codes).
    pub fn detect_with_rqrr(&self, gray_img: &GrayVariant) -> (r: Result<Vec<String>, String>)
        requires
            gray_img@.wf(),
        ensures
            r is Ok,
            r matches Ok(codes) ==> views_of(codes@) == rqrr_hit_texts(
                rqrr_reads(gray_img@.pixels, gray_img@.width, gray_img@.height),
            ),
    {
        let outcomes = rqrr_outcomes(&gray_img.pixels, gray_img.width, gray_img.height);
        let ghost reads = rqrr_reads(gray_img@.pixels, gray_img@.width, gray_img@.height);
        let mut results: Vec<String> = Vec::new();
        let mut i: usize = 0;
        while i < outcomes.len()
            invariant
                i <= outcomes@.len(),
                reads == outcomes@.map_values(|x: Result<RqrrHit, RqrrFail>| rqrr_read_view(x)),
                views_of(results@) == rqrr_hit_texts(reads.take(i as int)),
            decreases outcomes@.len() - i,
        {
            proof {
                assert(reads.take(i as int + 1).drop_last() =~= reads.take(i as int));
                assert(reads[i as int] == rqrr_read_view(outcomes@[i as int]));
            }
            match &outcomes[i] {
                Ok(h) => {
                    let text = h.text.clone();
                    results.push(text);
                    proof {
                        assert(views_of(results@) =~= rqrr_hit_texts(reads.take(i as int + 1)));
                    }
                },
                Err(_) => {
                    proof {
                        assert(views_of(results@) =~= rqrr_hit_texts(reads.take(i as int + 1)));
                    }
                },
            }
            i += 1;
        }
        proof {
            assert(reads.take(reads.len() as int) =~= reads);
        }
        Ok(results)
    }

    /// Detect QR codes using rxing (robust, single decode attempt).
    pub fn detect_with_rxing(&self, gray_img: &GrayVariant) -> (r: Result<Vec<String>, String>)
        requires
            gray_img@.wf(),
        ensures
            r is Ok,
            r matches Ok(codes) ==> views_of(codes@) == rxing_hit_texts(
                rxing_read(gray_img@.pixels, gray_img@.width, gray_img@.height),
            ),
    {
        let outcome = rxing_outcome(&gray_img.pixels, gray_img.width, gray_img.height);
        let mut results: Vec<String> = Vec::new();
        match outcome {
            Ok(h) => {
                results.push(h.text);
                proof {
                    assert(views_of(results@) =~= rxing_hit_texts(
                        rxing_read(gray_img@.pixels, gray_img@.width, gray_img@.height),
                    ));
                }
            },
            Err(_) => {
                proof {
                    assert(views_of(results@) =~= rxing_hit_texts(
                        rxing_read(gray_img@.pixels, gray_img@.width, gray_img@.height),
                    ));
                }
            },
        }
        Ok(results)
    }

    /// Detect QR codes using quircs; only payloads that decode as UTF-8 are
    /// reported.
    pub fn detect_with_quircs(&self, gray_img: &GrayVariant) -> (r: Result<Vec<String>, String>)
        requires
            gray_img@.wf(),
        ensures
            r is Ok,
            r matches Ok(codes) ==> views_of(codes@) == quircs_hit_texts(
                quircs_reads(gray_img@.pixels, gray_img@.width, gray_img@.height),
            ),
    {
        let outcomes = quircs_outcomes(&gray_img.pixels, gray_img.width, gray_img.height);
        let ghost reads = quircs_reads(gray_img@.pixels, gray_img@.width, gray_img@.height);
        let mut results: Vec<String> = Vec::new();
        let mut i: usize = 0;
        while i < outcomes.len()
            invariant
                i <= outcomes@.len(),
                reads == outcomes@.map_values(
                    |x: Result<QuircsHit, QuircsFail>| quircs_read_view(x),
                ),
                views_of(results@) == quircs_hit_texts(reads.take(i as int)),
            decreases outcomes@.len() - i,
        {
            proof {
                assert(reads.take(i as int + 1).drop_last() =~= reads.take(i as int));
                assert(reads[i as int] == quircs_read_view(outcomes@[i as int]));
            }
            match &outcomes[i] {
                Ok(h) => {
                    match bytes_to_text(&h.payload) {
                        Some(text) => {
                            results.push(text);
                        },
                        None => {},
                    }
                    proof {
                        assert(views_of(results@) =~= quircs_hit_texts(reads.take(i as int + 1)));
                    }
                },
                Err(_) => {
                    proof {
                        assert(views_of(results@) =~= quircs_hit_texts(reads.take(i as int + 1)));
                    }
                },
            }
            i += 1;
        }
        proof {
            assert(reads.take(reads.len() as int) =~= reads);
        }
        Ok(results)
    }

    /// Detect QR codes using bardecoder.
    pub fn detect_with_bardecoder(&self, gray_img: &GrayVariant) -> (r: Result<Vec<String>, String>)
        requires
            gray_img@.wf(),
        ensures
            r is Ok,
            r matches Ok(codes) ==> views_of(codes@) == bardecoder_hit_texts(
                bardecoder_reads(gray_img@.pixels, gray_img@.width, gray_img@.height),
            ),
    {
        let outcomes = bardecoder_outcomes(&gray_img.pixels, gray_img.width, gray_img.height);
        let ghost reads = bardecoder_reads(gray_img@.pixels, gray_img@.width, gray_img@.height);
        let mut results: Vec<String> = Vec::new();
        let mut i: usize = 0;
        while i < outcomes.len()
            invariant
                i <= outcomes@.len(),
                reads == outcomes@.map_values(
                    |x: Result<String, String>| bardecoder_read_view(x),
                ),
                views_of(results@) == bardecoder_hit_texts(reads.take(i as int)),
            decreases outcomes@.len() - i,
        {
            proof {
                assert(reads.take(i as int + 1).drop_last() =~= reads.take(i as int));
                assert(reads[i as int] == bardecoder_read_view(outcomes@[i as int]));
            }
            match &outcomes[i] {
                Ok(t) => {
                    let text = t.clone();
                    results.push(text);
                    proof {
                        assert(views_of(results@) =~= bardecoder_hit_texts(
                            reads.take(i as int + 1),
                        ));
                    }
                },
                Err(_) => {
                    proof {
                        assert(views_of(results@) =~= bardecoder_hit_texts(
                            reads.take(i as int + 1),
                        ));
                    }
                },
            }
            i += 1;
        }
        proof {
            assert(reads.take(reads.len() as int) =~= reads);
        }
        Ok(results)
    }

    /// One engine's deduplicated union across every variant.
    fn engine_across_variants(&self, e: EngineKind, variants: &Vec<GrayVariant>) -> (r: Vec<String>)
        requires
            forall|i: int| 0 <= i < variants@.len() ==> (#[trigger] variants@[i])@.wf(),
        ensures
            vset(r@) == engine_texts(e, frames_of(variants@)),
            no_dup_views(r@),
    {
        let ghost fs = frames_of(variants@);
        let mut acc: Vec<String> = Vec::new();
        let mut vi: usize = 0;
        while vi < variants.len()
            invariant
                vi <= variants@.len(),
                fs == frames_of(variants@),
                forall|i: int| 0 <= i < variants@.len() ==> (#[trigger] variants@[i])@.wf(),
                vset(acc@) == engine_texts(e, fs.take(vi as int)),
                no_dup_views(acc@),
            decreases variants@.len() - vi,
        {
            let v = &variants[vi];
            proof {
                assert(fs[vi as int] == variants@[vi as int]@);
            }
            let found = match e {
                EngineKind::Rqrr => self.detect_with_rqrr(v),
                EngineKind::Rxing => self.detect_with_rxing(v),
                EngineKind::Quircs => self.detect_with_quircs(v),
                EngineKind::Bardecoder => self.detect_with_bardecoder(v),
            };
            match found {
                Ok(codes) => {
                    proof {
                        lemma_vset_is_tset(
                            codes@,
                            views_of(codes@),
                        );
                        assert(vset(codes@) =~= engine_frame_texts(e, fs[vi as int]));
                    }
                    merge_unique(&mut acc, &codes);
                },
                Err(_) => {
                    proof {
                        assert(false);
                    }
                },
            }
            proof {
                lemma_engine_texts_step(e, fs, vi as int);
                assert(vset(acc@) =~= engine_texts(e, fs.take(vi as int + 1)));
            }
            vi += 1;
        }
        proof {
            assert(fs.take(fs.len() as int) =~= fs);
        }
        acc
    }

    /// Detect QR codes in a grayscale working frame with detailed timing,
    /// running every engine over every variant; returns the deduplicated
    /// payload list and one result per engine.
    pub fn detect_qr_codes(
        &self,
        working: &GrayVariant,
        timing: &mut QrDetectionTiming,
    ) -> (r: Result<(Vec<String>, Vec<EngineResult>), String>)
        requires
            working@.wf(),
        ensures
            r is Ok,
            r matches Ok(p) ==> detect_post(working@, p.0@, p.1@),
    {
        let total_timer = Timer::start();

        let gray_timer = Timer::start();
        let variants = ImagePreprocessor::generate_variants(working);
        timing.to_grayscale = gray_timer.elapsed();
        let ghost fs = frames_of(variants@);

        let mut all_results: Vec<String> = Vec::new();
        let mut engine_results: Vec<EngineResult> = Vec::new();

        let prepare_timer = Timer::start();
        let rqrr_timer = Timer::start();
        let rqrr_codes = self.engine_across_variants(EngineKind::Rqrr, &variants);
        let rqrr_duration = rqrr_timer.elapsed();
        merge_unique(&mut all_results, &rqrr_codes);
        engine_results.push(EngineResult {
            engine_name: "rqrr".to_owned(),
            qr_codes: rqrr_codes,
            duration_us: rqrr_duration,
        });
        timing.prepare_image = prepare_timer.elapsed();
        timing.detect_grids = prepare_timer.elapsed();

        let decode_timer = Timer::start();
        let rxing_timer = Timer::start();
        let rxing_codes = self.engine_across_variants(EngineKind::Rxing, &variants);
        let rxing_duration = rxing_timer.elapsed();
        merge_unique(&mut all_results, &rxing_codes);
        engine_results.push(EngineResult {
            engine_name: "rxing".to_owned(),
            qr_codes: rxing_codes,
            duration_us: rxing_duration,
        });

        let quircs_timer = Timer::start();
        let quircs_codes = self.engine_across_variants(EngineKind::Quircs, &variants);
        let quircs_duration = quircs_timer.elapsed();
        merge_unique(&mut all_results, &quircs_codes);
        engine_results.push(EngineResult {
            engine_name: "quircs".to_owned(),
            qr_codes: quircs_codes,
            duration_us: quircs_duration,
        });

        let bardecoder_timer = Timer::start();
        let bardecoder_codes = self.engine_across_variants(EngineKind::Bardecoder, &variants);
        let bardecoder_duration = bardecoder_timer.elapsed();
        merge_unique(&mut all_results, &bardecoder_codes);
        engine_results.push(EngineResult {
            engine_name: "bardecoder".to_owned(),
            qr_codes: bardecoder_codes,
            duration_us: bardecoder_duration,
        });

        timing.decode_qr = decode_timer.elapsed();
        timing.total = total_timer.elapsed();

        let out = (all_results, engine_results);
        proof {
            assert(vset(out.0@) =~= all_texts(fs));
            assert(fs == gen_spec(working@));
            assert(detect_post(working@, out.0@, out.1@));
        }
        Ok(out)
    }

    /// Scan the contents of a single file, already read into memory.
    ///
    /// Succeeds exactly when the bytes decode as a supported image container;
    /// on success the statistics count one more successful file.
    pub fn scan_file(&mut self, file_path: &str, data: &Vec<u8>) -> (r: Result<ScanResult, String>)
        requires
            old(self).wf(),
            old(self).stats_view().total_files < usize::MAX,
        ensures
            final(self).wf(),
            r is Ok <==> image_ok(data@),
            r matches Ok(res) ==> {
                &&& res.success
                &&& res.error is None
                &&& res.file_path@ == file_path@
                &&& no_dup_views(res.qr_codes@)
                &&& detect_post(working_frame_of(data@), res.qr_codes@, res.engine_results@)
                &&& final(self).stats_view().total_files == old(self).stats_view().total_files + 1
                &&& final(self).stats_view().successful_scans == old(
                    self,
                ).stats_view().successful_scans + 1
                &&& final(self).stats_view().failed_scans == old(self).stats_view().failed_scans
                &&& final(self).stats_view().files_with_qr == old(self).stats_view().files_with_qr
                    + (if res.qr_codes@.len() > 0 { 1int } else { 0int })
                &&& final(self).stats_view().total_qr_codes == (if res.qr_codes@.len() > 0 {
                    sat_add_usize_spec(old(self).stats_view().total_qr_codes, res.qr_codes@.len() as usize)
                } else {
                    old(self).stats_view().total_qr_codes
                })
                &&& final(self).stats_view().total_duration == sat_add_u64_spec(
                    old(self).stats_view().total_duration,
                    res.timing.total,
                )
            },
            r matches Err(m) ==> {
                &&& m@.len() > 0
                &&& *final(self) == *old(self)
            },
    {
        let total_timer = Timer::start();
        let mut timing = ScanTiming::new();

        let gray_timer = Timer::start();
        let working = match load_working_frame(data) {
            Ok(p) => p.0,
            Err(e) => {
                let mut m = "Failed to decode image: ".to_owned();
                m.append(file_path);
                m.append(": ");
                m.append(e.as_str());
                proof {
                    reveal_strlit("Failed to decode image: ");
                }
                return Err(m);
            },
        };
        let decode_duration = gray_timer.elapsed();

        let detected = self.detect_qr_codes(&working, &mut timing.qr_detection);
        let (qr_codes, engine_results) = match detected {
            Ok(p) => p,
            Err(e) => {
                proof {
                    assert(false);
                }
                return Err(e);
            },
        };
        timing.qr_detection.to_grayscale = sat_add_u64(
            decode_duration,
            timing.qr_detection.to_grayscale,
        );

        timing.total = total_timer.elapsed();

        self.stats.total_files = self.stats.total_files + 1;
        self.stats.successful_scans = self.stats.successful_scans + 1;
        self.stats.total_duration = sat_add_u64(self.stats.total_duration, timing.total);

        if qr_codes.len() > 0 {
            self.stats.files_with_qr = self.stats.files_with_qr + 1;
            self.stats.total_qr_codes = sat_add_usize(self.stats.total_qr_codes, qr_codes.len());
        }

        let res = ScanResult {
            file_path: file_path.to_owned(),
            qr_codes,
            engine_results,
            timing,
            success: true,
            error: None,
        };
        proof {
            assert(detect_post(working_frame_of(data@), res.qr_codes@, res.engine_results@));
        }
        Ok(res)
    }

    /// Record one file whose scan failed: the statistics count one more
    /// failure and the returned entry carries the error message.
    pub fn record_failure(&mut self, file_path: String, message: String) -> (r: ScanResult)
        requires
            old(self).wf(),
            old(self).stats_view().total_files < usize::MAX,
        ensures
            final(self).wf(),
            final(self).stats_view().total_files == old(self).stats_view().total_files + 1,
            final(self).stats_view().failed_scans == old(self).stats_view().failed_scans + 1,
            final(self).stats_view().successful_scans == old(self).stats_view().successful_scans,
            final(self).stats_view().files_with_qr == old(self).stats_view().files_with_qr,
            final(self).stats_view().total_qr_codes == old(self).stats_view().total_qr_codes,
            final(self).stats_view().total_duration == old(self).stats_view().total_duration,
            !r.success,
            r.error == Some(message),
            r.qr_codes@.len() == 0,
            r.engine_results@.len() == 0,
            r.file_path == file_path,
    {
        self.stats.total_files = self.stats.total_files + 1;
        self.stats.failed_scans = self.stats.failed_scans + 1;
        ScanResult {
            file_path,
            qr_codes: Vec::new(),
            engine_results: Vec::new(),
            timing: ScanTiming::new(),
            success: false,
            error: Some(message),
        }
    }

    /// Get the statistics, with the average duration computed.
    pub fn stats(&mut self) -> (r: ScanStats)
        requires
            old(self).wf(),
        ensures
            final(self).wf(),
            r == final(self).stats_view(),
            r.total_files == old(self).stats_view().total_files,
            r.successful_scans == old(self).stats_view().successful_scans,
            r.failed_scans == old(self).stats_view().failed_scans,
            r.files_with_qr == old(self).stats_view().files_with_qr,
            r.total_qr_codes == old(self).stats_view().total_qr_codes,
            r.total_duration == old(self).stats_view().total_duration,
            old(self).stats_view().total_files > 0 ==> r.avg_duration_per_file == old(
                self,
            ).stats_view().total_duration / (old(self).stats_view().total_files as u64),
    {
        self.stats.finalize();
        self.stats
    }
}

/// How many entries of a list hold the given text.
pub open spec fn count_views(s: Seq<String>, t: Seq<char>) -> int
    decreases s.len(),
{
    if s.len() == 0 {
        0
    } else {
        count_views(s.drop_last(), t) + if s.last()@ == t {
            1int
        } else {
            0int
        }
    }
}

proof fn lemma_count_zero(s: Seq<String>, t: Seq<char>)
    requires
        forall|i: int| 0 <= i < s.len() ==> s[i]@ != t,
    ensures
        count_views(s, t) == 0,
    decreases s.len(),
{
    if s.len() > 0 {
        lemma_count_zero(s.drop_last(), t);
    }
}

/// Law: deduplication. A payload decoded by two engines, or twice by one
/// engine, stands in the deduplicated result exactly once.
pub proof fn lemma_payload_once(codes: Seq<String>, t: Seq<char>)
    requires
        no_dup_views(codes),
        vset(codes).contains(t),
    ensures
        count_views(codes, t) == 1,
    decreases codes.len(),
{
    let i = choose|i: int| 0 <= i < codes.len() && codes[i]@ == t;
    if codes.last()@ == t {
        lemma_count_zero(codes.drop_last(), t);
    } else {
        assert(i < codes.len() - 1);
        assert(codes.drop_last()[i]@ == t);
        assert(vset(codes.drop_last()).contains(t));
        lemma_payload_once(codes.drop_last(), t);
    }
}

/// Law: idempotence. The scan contract pins the deduplicated payload set, and
/// each engine's set, as a function of the input bytes alone: two scans of the
/// same unmodified image agree.
pub proof fn lemma_scan_idempotent(
    data: Seq<u8>,
    c1: Seq<String>,
    e1: Seq<EngineResult>,
    c2: Seq<String>,
    e2: Seq<EngineResult>,
)
    requires
        detect_post(working_frame_of(data), c1, e1),
        detect_post(working_frame_of(data), c2, e2),
    ensures
        vset(c1) == vset(c2),
        forall|i: int| 0 <= i < 4 ==> vset(#[trigger] e1[i].qr_codes@) == vset(e2[i].qr_codes@),
{
    assert forall|i: int| 0 <= i < 4 implies vset(#[trigger] e1[i].qr_codes@) == vset(
        e2[i].qr_codes@,
    ) by {
        if i == 0 {
        } else if i == 1 {
        } else if i == 2 {
        } else {
        }
    }
}


/// The ASCII-lowercased byte.
pub open spec fn lower_byte(b: u8) -> u8 {
    if 65 <= b <= 90 {
        (b + 32) as u8
    } else {
        b
    }
}

/// The ASCII-lowercased byte sequence.
pub open spec fn lower_bytes(s: Seq<u8>) -> Seq<u8> {
    s.map_values(|b: u8| lower_byte(b))
}

/// Whether a file extension names a supported raster image format, compared
/// ASCII-case-insensitively: png, jpg, jpeg, bmp, gif, webp, tiff, tif.
pub open spec fn is_image_ext_spec(s: Seq<u8>) -> bool {
    ||| lower_bytes(s) == seq![112u8, 110u8, 103u8]
    ||| lower_bytes(s) == seq![106u8, 112u8, 103u8]
    ||| lower_bytes(s) == seq![106u8, 112u8, 101u8, 103u8]
    ||| lower_bytes(s) == seq![98u8, 109u8, 112u8]
    ||| lower_bytes(s) == seq![103u8, 105u8, 102u8]
    ||| lower_bytes(s) == seq![119u8, 101u8, 98u8, 112u8]
    ||| lower_bytes(s) == seq![116u8, 105u8, 102u8, 102u8]
    ||| lower_bytes(s) == seq![116u8, 105u8, 102u8]
}

fn lower_u8(b: u8) -> (r: u8)
    ensures
        r == lower_byte(b),
{
    if b >= 65 && b <= 90 {
        b + 32
    } else {
        b
    }
}

fn eq3(v: &Vec<u8>, a: u8, b: u8, c: u8) -> (r: bool)
    ensures
        r == (v@ == seq![a, b, c]),
{
    if v.len() != 3 {
        return false;
    }
    if v[0] == a && v[1] == b && v[2] == c {
        proof {
            assert(v@ =~= seq![a, b, c]);
        }
        true
    } else {
        false
    }
}

fn eq4(v: &Vec<u8>, a: u8, b: u8, c: u8, d: u8) -> (r: bool)
    ensures
        r == (v@ == seq![a, b, c, d]),
{
    if v.len() != 4 {
        return false;
    }
    if v[0] == a && v[1] == b && v[2] == c && v[3] == d {
        proof {
            assert(v@ =~= seq![a, b, c, d]);
        }
        true
    } else {
        false
    }
}

/// Whether a file extension is on the fixed allow-list of image formats,
/// compared case-insensitively. The directory walk scans exactly the files
/// whose extension passes this test.
pub fn is_image_extension(ext: &str) -> (r: bool)
    ensures
        r == is_image_ext_spec(ext.spec_bytes()),
{
    let bytes = ext.as_bytes_vec();
    let mut low: Vec<u8> = Vec::new();
    let mut i: usize = 0;
    while i < bytes.len()
        invariant
            i <= bytes@.len(),
            bytes@ == ext.spec_bytes(),
            low@ == lower_bytes(bytes@.take(i as int)),
        decreases bytes@.len() - i,
    {
        low.push(lower_u8(bytes[i]));
        i += 1;
        proof {
            assert(low@ =~= lower_bytes(bytes@.take(i as int)));
        }
    }
    proof {
        assert(bytes@.take(bytes@.len() as int) =~= bytes@);
    }
    eq3(&low, 112, 110, 103) || eq3(&low, 106, 112, 103) || eq4(&low, 106, 112, 101, 103) || eq3(
        &low,
        98,
        109,
        112,
    ) || eq3(&low, 103, 105, 102) || eq4(&low, 119, 101, 98, 112) || eq4(&low, 116, 105, 102, 102)
        || eq3(&low, 116, 105, 102)
}

/// Law: an image with no decodable pattern yields an empty payload set, while
/// the scan itself still counts as a success, not an error.
pub proof fn lemma_no_codes_empty_result(
    b: FrameV,
    codes: Seq<String>,
    engines: Seq<EngineResult>,
)
    requires
        detect_post(b, codes, engines),
        all_texts(gen_spec(b)) == Set::<Seq<char>>::empty(),
    ensures
        codes.len() == 0,
{
    if codes.len() > 0 {
        assert(vset(codes).contains(codes[0]@)) by {
            assert(0 <= 0 < codes.len() && codes[0]@ == codes[0]@);
        }
        assert(false);
    }
}

} // verus!
