//! Image preprocessing: produces labeled grayscale variants of one source
//! image (plain grayscale, contrast stretch, Otsu binarization, inversion,
//! and a size-guarded locally-adaptive threshold).

use vstd::prelude::*;
use vstd::string::StringExecFns;

verus! {

/// The mathematical model of one grayscale image variant.
#[verifier::ext_equal]
pub struct FrameV {
    pub label: Seq<char>,
    pub width: u32,
    pub height: u32,
    pub pixels: Seq<u8>,
}

impl FrameV {
    /// The pixel buffer holds exactly one sample per pixel.
    pub open spec fn wf(self) -> bool {
        self.pixels.len() == (self.width as int) * (self.height as int)
    }
}

/// One labeled grayscale rendition of a source image.
#[derive(Debug)]
pub struct GrayVariant {
    pub label: String,
    pub width: u32,
    pub height: u32,
    pub pixels: Vec<u8>,
}

impl View for GrayVariant {
    type V = FrameV;

    open spec fn view(&self) -> FrameV {
        FrameV { label: self.label@, width: self.width, height: self.height, pixels: self.pixels@ }
    }
}

/// The views of a sequence of variants.
pub open spec fn frames_of(vs: Seq<GrayVariant>) -> Seq<FrameV> {
    vs.map_values(|v: GrayVariant| v@)
}

/// The same frame under another label.
pub open spec fn with_label(f: FrameV, l: Seq<char>) -> FrameV {
    FrameV { label: l, ..f }
}

pub open spec fn min2(a: u8, b: u8) -> u8 {
    if a < b { a } else { b }
}

pub open spec fn max2(a: u8, b: u8) -> u8 {
    if a > b { a } else { b }
}

/// Smallest sample of a pixel buffer; 255 when empty.
pub open spec fn seq_min(s: Seq<u8>) -> u8
    decreases s.len(),
{
    if s.len() == 0 { 255 } else { min2(seq_min(s.drop_last()), s.last()) }
}

/// Largest sample of a pixel buffer; 0 when empty.
pub open spec fn seq_max(s: Seq<u8>) -> u8
    decreases s.len(),
{
    if s.len() == 0 { 0 } else { max2(seq_max(s.drop_last()), s.last()) }
}

proof fn lemma_minmax_step(s: Seq<u8>, i: int)
    requires
        0 <= i < s.len(),
    ensures
        seq_min(s.take(i + 1)) == min2(seq_min(s.take(i)), s[i]),
        seq_max(s.take(i + 1)) == max2(seq_max(s.take(i)), s[i]),
{
    assert(s.take(i + 1).drop_last() =~= s.take(i));
    assert(s.take(i + 1).last() == s[i]);
}

/// The linear contrast remap: `lower` and below to 0, `upper` and above to
/// 255, linear in between.
pub open spec fn stretch_spec(p: u8, lower: u8, upper: u8) -> u8
    recommends
        lower < upper,
{
    if p >= upper {
        255
    } else if p <= lower {
        0
    } else {
        ((255 * ((p - lower) as int)) / ((upper - lower) as int)) as u8
    }
}

/// The bi-level map: samples at or below the threshold become 0, the rest 255.
pub open spec fn thresh_spec(p: u8, level: u8) -> u8 {
    if p <= level { 0 } else { 255 }
}

/// The histogram-based optimal bi-level threshold of a grayscale image; a
/// function of the pixel data alone.
pub uninterp spec fn otsu_level_of(px: Seq<u8>, width: u32, height: u32) -> u8;

/// The block-locally thresholded rendition of a grayscale image: each output
/// sample is 255 exactly when its source sample is at least the mean of the
/// square block of the given radius around it; a function of its arguments
/// alone.
pub uninterp spec fn adaptive_spec(px: Seq<u8>, width: u32, height: u32, block_radius: u32) -> Seq<u8>;

/// Relies on imageproc::contrast::stretch_contrast: sends samples at or below
/// `lower` to 0, at or above `upper` to 255, and rescales linearly in between
/// with the integer formula 255 * (p - lower) / (upper - lower).
#[verifier::external_body]
fn stretch_contrast_call(px: &Vec<u8>, width: u32, height: u32, lower: u8, upper: u8) -> (r: Vec<u8>)
    requires
        px@.len() == (width as int) * (height as int),
        lower < upper,
    ensures
        r@.len() == px@.len(),
        forall|i: int| 0 <= i < r@.len() ==> r@[i] == stretch_spec(px@[i], lower, upper),
{
    let img = image::GrayImage::from_raw(width, height, px.clone()).unwrap();
    imageproc::contrast::stretch_contrast(&img, lower, upper).into_raw()
}

/// Relies on imageproc::contrast::otsu_level: the Otsu threshold level of the
/// image's histogram.
#[verifier::external_body]
fn otsu_level_call(px: &Vec<u8>, width: u32, height: u32) -> (r: u8)
    requires
        px@.len() == (width as int) * (height as int),
        (width as int) * (height as int) <= u32::MAX as int,
    ensures
        r == otsu_level_of(px@, width, height),
{
    let img = image::GrayImage::from_raw(width, height, px.clone()).unwrap();
    imageproc::contrast::otsu_level(&img)
}

/// Relies on imageproc::contrast::threshold: samples at or below the level
/// become 0, all others 255; dimensions are kept.
#[verifier::external_body]
fn threshold_call(px: &Vec<u8>, width: u32, height: u32, level: u8) -> (r: Vec<u8>)
    requires
        px@.len() == (width as int) * (height as int),
    ensures
        r@.len() == px@.len(),
        forall|i: int| 0 <= i < r@.len() ==> r@[i] == thresh_spec(px@[i], level),
{
    let img = image::GrayImage::from_raw(width, height, px.clone()).unwrap();
    imageproc::contrast::threshold(&img, level).into_raw()
}

/// Relies on imageproc::contrast::adaptive_threshold: compares each sample
/// with the mean of the block around it; dimensions are kept. The bounds keep
/// its u32 integral image and block coordinates from overflowing.
#[verifier::external_body]
fn adaptive_threshold_call(px: &Vec<u8>, width: u32, height: u32, block_radius: u32) -> (r: Vec<u8>)
    requires
        px@.len() == (width as int) * (height as int),
        255 * ((width as int) * (height as int)) <= u32::MAX as int,
        block_radius >= 1,
        width as int + block_radius as int <= u32::MAX as int,
        height as int + block_radius as int <= u32::MAX as int,
    ensures
        r@.len() == px@.len(),
        r@ == adaptive_spec(px@, width, height, block_radius),
{
    let img = image::GrayImage::from_raw(width, height, px.clone()).unwrap();
    imageproc::contrast::adaptive_threshold(&img, block_radius).into_raw()
}

/// A verified byte-for-byte copy of a pixel buffer.
fn copy_pixels(px: &Vec<u8>) -> (r: Vec<u8>)
    ensures
        r@ == px@,
{
    let mut out: Vec<u8> = Vec::new();
    let mut i: usize = 0;
    while i < px.len()
        invariant
            i <= px@.len(),
            out@ == px@.take(i as int),
        decreases px@.len() - i,
    {
        out.push(px[i]);
        i += 1;
        proof {
            assert(out@ =~= px@.take(i as int));
        }
    }
    proof {
        assert(px@.take(px@.len() as int) =~= px@);
    }
    out
}

/// Contrast stretch of a frame: a no-op when the observed range is already
/// degenerate, otherwise the linear remap between observed extremes.
pub open spec fn enhance_spec(f: FrameV) -> FrameV {
    let mn = seq_min(f.pixels);
    let mx = seq_max(f.pixels);
    if mn < mx {
        FrameV { pixels: f.pixels.map_values(|p: u8| stretch_spec(p, mn, mx)), ..f }
    } else {
        f
    }
}

/// Otsu binarization of a frame.
pub open spec fn otsu_binarization_spec(f: FrameV) -> FrameV {
    FrameV {
        pixels: f.pixels.map_values(|p: u8| thresh_spec(p, otsu_level_of(f.pixels, f.width, f.height))),
        ..f
    }
}

/// Brightness inversion of a frame.
pub open spec fn invert_spec(f: FrameV) -> FrameV {
    FrameV { pixels: f.pixels.map_values(|p: u8| (255 - p) as u8), ..f }
}

/// Adaptive threshold of a frame.
pub open spec fn adaptive_frame_spec(f: FrameV, block_radius: u32) -> FrameV {
    FrameV { pixels: adaptive_spec(f.pixels, f.width, f.height, block_radius), ..f }
}

/// Preprocess an image for better QR code detection.
pub struct ImagePreprocessor;

impl ImagePreprocessor {
    /// Stretch contrast to the full intensity range.
    pub fn enhance_contrast(gray: &GrayVariant) -> (r: GrayVariant)
        requires
            gray@.wf(),
        ensures
            r@ == enhance_spec(gray@),
            r@.wf(),
    {
        let ghost s = gray.pixels@;
        let n = gray.pixels.len();
        let mut mn: u8 = 255;
        let mut mx: u8 = 0;
        let mut i: usize = 0;
        while i < n
            invariant
                i <= n,
                n == s.len(),
                s == gray.pixels@,
                mn == seq_min(s.take(i as int)),
                mx == seq_max(s.take(i as int)),
            decreases n - i,
        {
            proof {
                lemma_minmax_step(s, i as int);
            }
            let p = gray.pixels[i];
            if p < mn {
                mn = p;
            }
            if p > mx {
                mx = p;
            }
            i += 1;
        }
        proof {
            assert(s.take(n as int) =~= s);
        }
        if mn < mx {
            let out = stretch_contrast_call(&gray.pixels, gray.width, gray.height, mn, mx);
            let r = GrayVariant {
                label: gray.label.clone(),
                width: gray.width,
                height: gray.height,
                pixels: out,
            };
            proof {
                assert(r@.pixels =~= enhance_spec(gray@).pixels);
                assert(r@ =~= enhance_spec(gray@));
            }
            r
        } else {
            let r = GrayVariant {
                label: gray.label.clone(),
                width: gray.width,
                height: gray.height,
                pixels: copy_pixels(&gray.pixels),
            };
            proof {
                assert(r@ =~= enhance_spec(gray@));
            }
            r
        }
    }

    /// Apply Otsu's binarization.
    pub fn otsu_binarization(gray: &GrayVariant) -> (r: GrayVariant)
        requires
            gray@.wf(),
            (gray@.width as int) * (gray@.height as int) <= u32::MAX as int,
        ensures
            r@ == otsu_binarization_spec(gray@),
            r@.wf(),
    {
        let level = otsu_level_call(&gray.pixels, gray.width, gray.height);
        let out = threshold_call(&gray.pixels, gray.width, gray.height, level);
        let r = GrayVariant {
            label: gray.label.clone(),
            width: gray.width,
            height: gray.height,
            pixels: out,
        };
        proof {
            assert(r@.pixels =~= otsu_binarization_spec(gray@).pixels);
            assert(r@ =~= otsu_binarization_spec(gray@));
        }
        r
    }

    /// Invert image brightness (for light-on-dark codes).
    pub fn invert(gray: &GrayVariant) -> (r: GrayVariant)
        requires
            gray@.wf(),
        ensures
            r@ == invert_spec(gray@),
            r@.wf(),
    {
        let mut out: Vec<u8> = Vec::new();
        let n = gray.pixels.len();
        let mut i: usize = 0;
        while i < n
            invariant
                i <= n,
                n == gray.pixels@.len(),
                out@.len() == i,
                forall|j: int| 0 <= j < i ==> out@[j] == 255 - gray.pixels@[j],
            decreases n - i,
        {
            out.push(255 - gray.pixels[i]);
            i += 1;
        }
        let r = GrayVariant {
            label: gray.label.clone(),
            width: gray.width,
            height: gray.height,
            pixels: out,
        };
        proof {
            assert(r@.pixels =~= invert_spec(gray@).pixels);
            assert(r@ =~= invert_spec(gray@));
        }
        r
    }

    /// Apply adaptive thresholding with the given block radius.
    pub fn adaptive_threshold_image(gray: &GrayVariant, block_radius: u32) -> (r: GrayVariant)
        requires
            gray@.wf(),
            255 * ((gray@.width as int) * (gray@.height as int)) <= u32::MAX as int,
            block_radius >= 1,
            gray@.width as int + block_radius as int <= u32::MAX as int,
            gray@.height as int + block_radius as int <= u32::MAX as int,
        ensures
            r@ == adaptive_frame_spec(gray@, block_radius),
            r@.wf(),
    {
        let out = adaptive_threshold_call(&gray.pixels, gray.width, gray.height, block_radius);
        let r = GrayVariant {
            label: gray.label.clone(),
            width: gray.width,
            height: gray.height,
            pixels: out,
        };
        proof {
            assert(r@ =~= adaptive_frame_spec(gray@, block_radius));
        }
        r
    }

    /// Generate the preprocessed variants of a grayscale base frame. Frames
    /// too large for the container library's u32 histogram are passed through
    /// unmodified as the single variant.
    pub fn generate_variants(base: &GrayVariant) -> (r: Vec<GrayVariant>)
        requires
            base@.wf(),
        ensures
            frames_of(r@) == gen_spec(base@),
            r@.len() >= 1,
            forall|i: int| 0 <= i < r@.len() ==> (#[trigger] r@[i])@.wf()
                && r@[i]@.width == base@.width && r@[i]@.height == base@.height,
    {
        let w = base.width;
        let h = base.height;
        proof {
            assert((w as int) * (h as int) <= u64::MAX as int) by (nonlinear_arith)
                requires
                    w as int <= 0xFFFF_FFFF,
                    h as int <= 0xFFFF_FFFF,
            {}
        }
        if (w as u64) * (h as u64) <= u32::MAX as u64 {
            let r = Self::variants_of_gray(base);
            proof {
                assert(frames_of(r@) == gen_spec(base@));
            }
            r
        } else {
            let copy = GrayVariant {
                label: base.label.clone(),
                width: base.width,
                height: base.height,
                pixels: copy_pixels(&base.pixels),
            };
            let mut r: Vec<GrayVariant> = Vec::new();
            r.push(copy);
            proof {
                assert(r@[0]@ =~= base@);
                assert(frames_of(r@) =~= seq![base@]);
                assert(frames_of(r@) == gen_spec(base@));
            }
            r
        }
    }

    /// Generate the variant list from an already-grayscale base frame.
    pub fn variants_of_gray(base: &GrayVariant) -> (r: Vec<GrayVariant>)
        requires
            base@.wf(),
            (base@.width as int) * (base@.height as int) <= u32::MAX as int,
        ensures
            frames_of(r@) == variants_spec(base@),
            r@.len() >= 4,
            forall|i: int| 0 <= i < r@.len() ==> (#[trigger] r@[i])@.wf()
                && r@[i]@.width == base@.width && r@[i]@.height == base@.height,
    {
        let mut out: Vec<GrayVariant> = Vec::new();

        let gray = GrayVariant {
            label: "original".to_owned(),
            width: base.width,
            height: base.height,
            pixels: copy_pixels(&base.pixels),
        };
        proof {
            assert(gray@ =~= with_label(base@, "original"@));
        }

        let enh0 = Self::enhance_contrast(base);
        let enh = GrayVariant {
            label: "contrast_enhanced".to_owned(),
            width: enh0.width,
            height: enh0.height,
            pixels: enh0.pixels,
        };
        proof {
            assert(enh@ =~= with_label(enhance_spec(base@), "contrast_enhanced"@));
        }

        let ots0 = Self::otsu_binarization(&enh);
        let ots = GrayVariant {
            label: "otsu".to_owned(),
            width: ots0.width,
            height: ots0.height,
            pixels: ots0.pixels,
        };
        proof {
            assert(ots@ =~= with_label(otsu_binarization_spec(enh@), "otsu"@));
        }

        let inv0 = Self::invert(&enh);
        let inv = GrayVariant {
            label: "inverted".to_owned(),
            width: inv0.width,
            height: inv0.height,
            pixels: inv0.pixels,
        };
        proof {
            assert(inv@ =~= with_label(invert_spec(enh@), "inverted"@));
        }

        let pixel_count = (base.width as u64) * (base.height as u64);
        if base.width > 100 && base.height > 100 && pixel_count < 10_000_000 {
            let m = if base.width < base.height { base.width } else { base.height };
            let d = m / 50;
            let block_radius: u32 = if d < 5 { 5 } else if d > 50 { 50 } else { d };
            proof {
                assert((base@.width as int) * (base@.height as int) < 10_000_000);
                assert(base@.width as int + block_radius as int <= u32::MAX as int)
                    by (nonlinear_arith)
                    requires
                        base@.width as int > 100,
                        base@.height as int > 100,
                        (base@.width as int) * (base@.height as int) < 10_000_000,
                        block_radius as int <= 50,
                {}
                assert(base@.height as int + block_radius as int <= u32::MAX as int)
                    by (nonlinear_arith)
                    requires
                        base@.width as int > 100,
                        base@.height as int > 100,
                        (base@.width as int) * (base@.height as int) < 10_000_000,
                        block_radius as int <= 50,
                {}
            }
            let ada0 = Self::adaptive_threshold_image(&enh, block_radius);
            let ada = GrayVariant {
                label: "adaptive".to_owned(),
                width: ada0.width,
                height: ada0.height,
                pixels: ada0.pixels,
            };
            proof {
                assert(block_radius == block_radius_spec(base@.width, base@.height));
                assert(ada@ =~= with_label(
                    adaptive_frame_spec(enh@, block_radius_spec(base@.width, base@.height)),
                    "adaptive"@,
                ));
            }
            out.push(gray);
            out.push(enh);
            out.push(ots);
            out.push(inv);
            out.push(ada);
            proof {
                assert(frames_of(out@) =~= variants_spec(base@));
            }
        } else {
            out.push(gray);
            out.push(enh);
            out.push(ots);
            out.push(inv);
            proof {
                assert(frames_of(out@) =~= variants_spec(base@));
            }
        }
        out
    }
}

/// Whether the image is small enough for the adaptive-threshold variant.
pub open spec fn adaptive_included(b: FrameV) -> bool {
    b.width > 100 && b.height > 100 && (b.width as int) * (b.height as int) < 10_000_000
}

/// The block radius used by the adaptive-threshold variant.
pub open spec fn block_radius_spec(w: u32, h: u32) -> u32 {
    let m: u32 = if w < h { w } else { h };
    let d: u32 = m / 50;
    if d < 5 { 5u32 } else if d > 50 { 50u32 } else { d }
}

/// The ordered variant list generated from a grayscale base frame.
pub open spec fn variants_spec(b: FrameV) -> Seq<FrameV> {
    let gray = with_label(b, "original"@);
    let enh = with_label(enhance_spec(b), "contrast_enhanced"@);
    let ots = with_label(otsu_binarization_spec(enh), "otsu"@);
    let inv = with_label(invert_spec(enh), "inverted"@);
    let base4 = seq![gray, enh, ots, inv];
    if adaptive_included(b) {
        base4.push(with_label(adaptive_frame_spec(enh, block_radius_spec(b.width, b.height)), "adaptive"@))
    } else {
        base4
    }
}

/// The variant list produced for an arbitrary grayscale base: the full list
/// where the pixel count is within machine range, the plain grayscale frame
/// alone otherwise.
pub open spec fn gen_spec(b: FrameV) -> Seq<FrameV> {
    if (b.width as int) * (b.height as int) <= u32::MAX as int {
        variants_spec(b)
    } else {
        seq![b]
    }
}

/// Law: for every image, preprocessing yields a non-empty variant list and
/// every variant shares the base frame's width and height.
pub proof fn lemma_variants_nonempty_uniform(b: FrameV)
    requires
        b.wf(),
    ensures
        variants_spec(b).len() >= 4,
        forall|i: int| 0 <= i < variants_spec(b).len()
            ==> (#[trigger] variants_spec(b)[i]).width == b.width
                && variants_spec(b)[i].height == b.height,
{
}

/// Law: for an image at or above the pixel-count ceiling, the
/// adaptive-threshold variant is skipped while the four others are still
/// generated.
pub proof fn lemma_adaptive_skipped(b: FrameV)
    requires
        b.wf(),
        (b.width as int) * (b.height as int) >= 10_000_000,
    ensures
        variants_spec(b).len() == 4,
        forall|i: int| 0 <= i < variants_spec(b).len()
            ==> (#[trigger] variants_spec(b)[i]).label != "adaptive"@,
{
    reveal_strlit("original");
    reveal_strlit("contrast_enhanced");
    reveal_strlit("otsu");
    reveal_strlit("inverted");
    reveal_strlit("adaptive");
    assert(variants_spec(b)[0].label == "original"@);
    assert(variants_spec(b)[1].label == "contrast_enhanced"@);
    assert(variants_spec(b)[2].label == "otsu"@);
    assert(variants_spec(b)[3].label == "inverted"@);
    assert("original"@[0] != "adaptive"@[0]);
    assert("contrast_enhanced"@.len() != "adaptive"@.len());
    assert("otsu"@.len() != "adaptive"@.len());
    assert("inverted"@[0] != "adaptive"@[0]);
}

/// Law: for an image below the ceiling (and wider and taller than the block
/// guard), the adaptive-threshold variant is generated as the fifth entry.
pub proof fn lemma_adaptive_included(b: FrameV)
    requires
        b.wf(),
        b.width > 100,
        b.height > 100,
        (b.width as int) * (b.height as int) < 10_000_000,
    ensures
        variants_spec(b).len() == 5,
        variants_spec(b)[4].label == "adaptive"@,
{
}

} // verus!
