//! Trusted boundary to the image container library, and the verified step
//! from raw file bytes to the grayscale working frame every scan runs on:
//! decode, downsample when a dimension exceeds the cap, flatten to 8-bit
//! grayscale.

use vstd::prelude::*;
use vstd::string::StringExecFns;
use crate::preprocessor::FrameV;
use crate::preprocessor::GrayVariant;

verus! {

/// Whether a byte buffer parses as a supported image container; decoding is a
/// function of the bytes alone.
pub uninterp spec fn image_ok(data: Seq<u8>) -> bool;

/// The 8-bit grayscale rendition of a decodable byte buffer: its samples,
/// width and height; a function of the bytes alone.
pub uninterp spec fn gray_frame_of(data: Seq<u8>) -> (Seq<u8>, u32, u32);

/// The grayscale rendition of a decodable byte buffer after bounding it
/// within the given dimensions (aspect ratio kept); a function of its
/// arguments alone.
pub uninterp spec fn resized_gray_of(data: Seq<u8>, nwidth: u32, nheight: u32) -> (Seq<u8>, u32, u32);

/// Relies on image::load_from_memory and DynamicImage::to_luma8: decodes the
/// buffer (success depends only on the bytes) and flattens it to one 8-bit
/// sample per pixel, one byte each, keeping the image's dimensions.
#[verifier::external_body]
fn gray_of_bytes(data: &Vec<u8>) -> (r: Result<(Vec<u8>, u32, u32), String>)
    ensures
        r is Ok <==> image_ok(data@),
        r matches Ok(g) ==> ({
            &&& g.0@ == gray_frame_of(data@).0
            &&& g.1 == gray_frame_of(data@).1
            &&& g.2 == gray_frame_of(data@).2
            &&& g.0@.len() == (g.1 as int) * (g.2 as int)
        }),
{
    match image::load_from_memory(data.as_slice()) {
        Ok(img) => {
            let g = img.to_luma8();
            let (w, h) = g.dimensions();
            Ok((g.into_raw(), w, h))
        },
        Err(e) => Err(format!("{}", e)),
    }
}

/// Relies on image::load_from_memory, DynamicImage::resize (Lanczos3 filter,
/// bounding the image within the given dimensions while keeping aspect
/// ratio) and to_luma8; the result is a function of its arguments alone.
#[verifier::external_body]
fn resized_gray_of_bytes(data: &Vec<u8>, nwidth: u32, nheight: u32) -> (r: Result<(Vec<u8>, u32, u32), String>)
    ensures
        r is Ok <==> image_ok(data@),
        r matches Ok(g) ==> ({
            &&& g.0@ == resized_gray_of(data@, nwidth, nheight).0
            &&& g.1 == resized_gray_of(data@, nwidth, nheight).1
            &&& g.2 == resized_gray_of(data@, nwidth, nheight).2
            &&& g.0@.len() == (g.1 as int) * (g.2 as int)
        }),
{
    match image::load_from_memory(data.as_slice()) {
        Ok(img) => {
            let g = img.resize(nwidth, nheight, image::imageops::FilterType::Lanczos3).to_luma8();
            let (w, h) = g.dimensions();
            Ok((g.into_raw(), w, h))
        },
        Err(e) => Err(format!("{}", e)),
    }
}

/// The grayscale working frame a decodable byte buffer scans as: the plain
/// grayscale rendition, downsampled first when the larger dimension exceeds
/// the cap.
pub open spec fn working_frame_of(data: Seq<u8>) -> FrameV {
    let g = gray_frame_of(data);
    let m: u32 = if g.1 > g.2 { g.1 } else { g.2 };
    if m > 2000 {
        let nw = ((g.1 as int) * 2000 / (m as int)) as u32;
        let nh = ((g.2 as int) * 2000 / (m as int)) as u32;
        if nw > 0 && nh > 0 {
            let rg = resized_gray_of(data, nw, nh);
            FrameV { label: "original"@, width: rg.1, height: rg.2, pixels: rg.0 }
        } else {
            FrameV { label: "original"@, width: g.1, height: g.2, pixels: g.0 }
        }
    } else {
        FrameV { label: "original"@, width: g.1, height: g.2, pixels: g.0 }
    }
}

/// Decode a byte buffer into its grayscale working frame, together with the
/// decoded image's original dimensions (before any downsampling).
pub fn load_working_frame(data: &Vec<u8>) -> (r: Result<(GrayVariant, (u32, u32)), String>)
    ensures
        r is Ok <==> image_ok(data@),
        r matches Ok(p) ==> ({
            &&& p.0@ == working_frame_of(data@)
            &&& p.0@.wf()
            &&& p.1.0 == gray_frame_of(data@).1
            &&& p.1.1 == gray_frame_of(data@).2
        }),
{
    let g = match gray_of_bytes(data) {
        Ok(g) => g,
        Err(e) => {
            return Err(e);
        },
    };
    let (px, w, h) = g;
    let max_dimension = if w > h { w } else { h };
    if max_dimension > 2000 {
        proof {
            assert((w as int) * 2000 / (max_dimension as int) <= 2000) by (nonlinear_arith)
                requires
                    0 < max_dimension as int,
                    w as int <= max_dimension as int,
            {}
            assert((h as int) * 2000 / (max_dimension as int) <= 2000) by (nonlinear_arith)
                requires
                    0 < max_dimension as int,
                    h as int <= max_dimension as int,
            {}
        }
        let nw = ((w as u64) * 2000 / (max_dimension as u64)) as u32;
        let nh = ((h as u64) * 2000 / (max_dimension as u64)) as u32;
        if nw > 0 && nh > 0 {
            match resized_gray_of_bytes(data, nw, nh) {
                Ok(rg) => {
                    let v = GrayVariant {
                        label: "original".to_owned(),
                        width: rg.1,
                        height: rg.2,
                        pixels: rg.0,
                    };
                    proof {
                        assert(v@ =~= working_frame_of(data@));
                    }
                    Ok((v, (w, h)))
                },
                Err(e) => {
                    proof {
                        assert(false);
                    }
                    Err(e)
                },
            }
        } else {
            let v = GrayVariant { label: "original".to_owned(), width: w, height: h, pixels: px };
            proof {
                assert(v@ =~= working_frame_of(data@));
            }
            Ok((v, (w, h)))
        }
    } else {
        let v = GrayVariant { label: "original".to_owned(), width: w, height: h, pixels: px };
        proof {
            assert(v@ =~= working_frame_of(data@));
        }
        Ok((v, (w, h)))
    }
}

} // verus!
