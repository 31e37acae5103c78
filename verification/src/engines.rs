//! Engine adapters' trusted boundary: each decoding engine is called through
//! one wrapper that hands back plain values (decoded text, structural
//! metadata, and the engine's own error taxonomy as a library enum).
//!
//! Each engine is a pure decoder: what it returns is a function of the pixel
//! data alone, so each wrapper's result carries a name that the library's
//! contracts build on.

use vstd::prelude::*;
use vstd::utf8::valid_utf8;
use vstd::utf8::decode_utf8;
use quircs::DecodeError;
use quircs::ExtractError;
use rqrr::DeQRError;
use rxing::Exceptions;
use rxing::Reader;

verus! {

/// Decoding failures reported by the rqrr engine.
#[derive(Debug, Clone, Copy, PartialEq, Eq, Structural)]
pub enum RqrrFail {
    IoError,
    DataUnderflow,
    DataOverflow,
    UnknownDataType,
    DataEcc,
    FormatEcc,
    InvalidVersion,
    InvalidGridSize,
    EncodingError,
}

/// Decoding and extraction failures reported by the quircs engine.
#[derive(Debug, Clone, Copy, PartialEq, Eq, Structural)]
pub enum QuircsFail {
    InvalidGridSize,
    InvalidVersion,
    DataEcc,
    FormatEcc,
    UnknownDataType,
    DataOverflow,
    DataUnderflow,
    OutOfBounds,
}

/// Failures reported by the rxing engine, each with the engine's message; the
/// last holds the engine's own rendering of any other exception.
#[derive(Debug, Clone)]
pub enum RxingFail {
    NotFound(String),
    Format(String),
    Checksum(String),
    ReedSolomon(String),
    Other(String),
}

/// The mathematical value of an rxing failure.
pub enum RxingFailV {
    NotFound(Seq<char>),
    Format(Seq<char>),
    Checksum(Seq<char>),
    ReedSolomon(Seq<char>),
    Other(Seq<char>),
}

pub open spec fn rxing_fail_view(f: RxingFail) -> RxingFailV {
    match f {
        RxingFail::NotFound(m) => RxingFailV::NotFound(m@),
        RxingFail::Format(m) => RxingFailV::Format(m@),
        RxingFail::Checksum(m) => RxingFailV::Checksum(m@),
        RxingFail::ReedSolomon(m) => RxingFailV::ReedSolomon(m@),
        RxingFail::Other(m) => RxingFailV::Other(m@),
    }
}

/// One grid successfully decoded by rqrr.
#[derive(Debug)]
pub struct RqrrHit {
    pub text: String,
    pub version: usize,
    pub ecc_level: u16,
}

pub open spec fn rqrr_read_view(r: Result<RqrrHit, RqrrFail>) -> Result<(Seq<char>, usize, u16), RqrrFail> {
    match r {
        Ok(h) => Ok((h.text@, h.version, h.ecc_level)),
        Err(e) => Err(e),
    }
}

/// One code successfully decoded by quircs: the raw payload plus the
/// structural metadata the engine exposes.
#[derive(Debug)]
pub struct QuircsHit {
    pub payload: Vec<u8>,
    pub version: usize,
    pub ecc_name: String,
    pub data_type_name: String,
}

pub open spec fn quircs_read_view(r: Result<QuircsHit, QuircsFail>) -> Result<(Seq<u8>, usize, Seq<char>, Seq<char>), QuircsFail> {
    match r {
        Ok(h) => Ok((h.payload@, h.version, h.ecc_name@, h.data_type_name@)),
        Err(e) => Err(e),
    }
}

/// The single decode attempt rxing makes on an image.
#[derive(Debug)]
pub struct RxingHit {
    pub text: String,
    pub format_name: String,
}

pub open spec fn rxing_read_view(r: Result<RxingHit, RxingFail>) -> Result<(Seq<char>, Seq<char>), RxingFailV> {
    match r {
        Ok(h) => Ok((h.text@, h.format_name@)),
        Err(e) => Err(rxing_fail_view(e)),
    }
}

pub open spec fn bardecoder_read_view(r: Result<String, String>) -> Result<Seq<char>, Seq<char>> {
    match r {
        Ok(t) => Ok(t@),
        Err(e) => Err(e@),
    }
}

/// What rqrr finds in a grayscale buffer: one entry per detected grid, a
/// function of the pixel data alone.
pub uninterp spec fn rqrr_reads(px: Seq<u8>, width: u32, height: u32) -> Seq<Result<(Seq<char>, usize, u16), RqrrFail>>;

/// What quircs finds in a grayscale buffer: one entry per identified code, a
/// function of the pixel data alone.
pub uninterp spec fn quircs_reads(px: Seq<u8>, width: u32, height: u32) -> Seq<Result<(Seq<u8>, usize, Seq<char>, Seq<char>), QuircsFail>>;

/// What rxing's single decode attempt on a grayscale buffer returns, a
/// function of the pixel data alone.
pub uninterp spec fn rxing_read(px: Seq<u8>, width: u32, height: u32) -> Result<(Seq<char>, Seq<char>), RxingFailV>;

/// What bardecoder finds in a grayscale buffer: one entry per located code, a
/// function of the pixel data alone.
pub uninterp spec fn bardecoder_reads(px: Seq<u8>, width: u32, height: u32) -> Seq<Result<Seq<char>, Seq<char>>>;

#[verifier::external_type_specification]
#[verifier::external_body]
pub struct ExDeQRError(rqrr::DeQRError);

#[verifier::external_type_specification]
#[verifier::external_body]
pub struct ExDecodeError(quircs::DecodeError);

#[verifier::external_type_specification]
#[verifier::external_body]
pub struct ExExceptions(rxing::Exceptions);

/// Relies on rqrr's DeQRError definition alone: mirrors each variant of the
/// engine's error enum as the library's own.
#[verifier::external_body]
fn rqrr_fail_of(e: &DeQRError) -> RqrrFail {
    match e {
        DeQRError::IoError => RqrrFail::IoError,
        DeQRError::DataUnderflow => RqrrFail::DataUnderflow,
        DeQRError::DataOverflow => RqrrFail::DataOverflow,
        DeQRError::UnknownDataType => RqrrFail::UnknownDataType,
        DeQRError::DataEcc => RqrrFail::DataEcc,
        DeQRError::FormatEcc => RqrrFail::FormatEcc,
        DeQRError::InvalidVersion => RqrrFail::InvalidVersion,
        DeQRError::InvalidGridSize => RqrrFail::InvalidGridSize,
        DeQRError::EncodingError => RqrrFail::EncodingError,
    }
}

/// Relies on quircs's DecodeError definition alone: mirrors each variant of
/// the engine's error enum as the library's own.
#[verifier::external_body]
fn quircs_fail_of(e: &DecodeError) -> QuircsFail {
    match e {
        DecodeError::InvalidGridSize => QuircsFail::InvalidGridSize,
        DecodeError::InvalidVersion => QuircsFail::InvalidVersion,
        DecodeError::DataEcc => QuircsFail::DataEcc,
        DecodeError::FormatEcc => QuircsFail::FormatEcc,
        DecodeError::UnkownDataType => QuircsFail::UnknownDataType,
        DecodeError::DataOverflow => QuircsFail::DataOverflow,
        DecodeError::DataUnderflow => QuircsFail::DataUnderflow,
    }
}

/// Relies on rxing's Exceptions definition alone: carries over the message of
/// each exception the diagnostics distinguish, and the engine's own rendering
/// of any other.
#[verifier::external_body]
fn rxing_fail_of(e: Exceptions) -> RxingFail {
    match e {
        Exceptions::NotFoundException(m) => RxingFail::NotFound(m),
        Exceptions::FormatException(m) => RxingFail::Format(m),
        Exceptions::ChecksumException(m) => RxingFail::Checksum(m),
        Exceptions::ReedSolomonException(m) => RxingFail::ReedSolomon(m),
        other => RxingFail::Other(format!("{:?}", other)),
    }
}

/// Relies on String::from_utf8: succeeds exactly on valid UTF-8 input, and
/// the decoded text is the byte buffer's UTF-8 decoding.
#[verifier::external_body]
pub fn bytes_to_text(b: &Vec<u8>) -> (r: Option<String>)
    ensures
        r is Some <==> valid_utf8(b@),
        r matches Some(t) ==> t@ == decode_utf8(b@),
{
    String::from_utf8(b.clone()).ok()
}

/// One grayscale sample, read row-major; handed to rqrr as its fill function.
pub(crate) fn pixel_at(px: &Vec<u8>, width: u32, x: usize, y: usize) -> (r: u8)
    requires
        (y as int) * (width as int) + (x as int) < px@.len(),
    ensures
        r == px@[(y as int) * (width as int) + (x as int)],
{
    let n = px.len();
    proof {
        assert((y as int) * (width as int) + (x as int) < n as int);
    }
    px[y * (width as usize) + x]
}

/// Relies on rqrr's PreparedImage::prepare_from_greyscale, detect_grids and
/// Grid::decode: locates QR grids in the buffer and decodes each one; the
/// outcome is a function of the pixel data. A decoded version is validated by
/// the engine to lie in 1..=40.
#[verifier::external_body]
fn rqrr_call(px: &Vec<u8>, width: u32, height: u32) -> (r: Vec<Result<RqrrHit, RqrrFail>>)
    requires
        px@.len() == (width as int) * (height as int),
    ensures
        r@.map_values(|x: Result<RqrrHit, RqrrFail>| rqrr_read_view(x)) == rqrr_reads(px@, width, height),
        forall|i: int| 0 <= i < r@.len() ==> ((#[trigger] r@[i]) matches Ok(h) ==> 1 <= h.version <= 40),
{
    let mut prepared = rqrr::PreparedImage::prepare_from_greyscale(
        width as usize, height as usize, |x, y| pixel_at(px, width, x, y));
    prepared.detect_grids().iter().map(|g| match g.decode() {
        Ok((meta, text)) => Ok(RqrrHit { text, version: meta.version.0, ecc_level: meta.ecc_level }),
        Err(e) => Err(rqrr_fail_of(&e)),
    }).collect()
}

/// Relies on quircs's Quirc::identify and Code::decode: identifies QR codes
/// in the buffer and decodes each one; the outcome is a function of the pixel
/// data. A decoded version is validated by the engine to lie in 1..=40.
#[verifier::external_body]
fn quircs_call(px: &Vec<u8>, width: u32, height: u32) -> (r: Vec<Result<QuircsHit, QuircsFail>>)
    requires
        px@.len() == (width as int) * (height as int),
    ensures
        r@.map_values(|x: Result<QuircsHit, QuircsFail>| quircs_read_view(x)) == quircs_reads(px@, width, height),
        forall|i: int| 0 <= i < r@.len() ==> ((#[trigger] r@[i]) matches Ok(h) ==> 1 <= h.version <= 40),
{
    let mut q = quircs::Quirc::new();
    q.identify(width as usize, height as usize, px.as_slice()).map(|c| match c {
        Err(ExtractError::OutOfBounds) => Err(QuircsFail::OutOfBounds),
        Ok(code) => match code.decode() {
            Ok(d) => Ok(QuircsHit { payload: d.payload, version: d.version, ecc_name: format!("{:?}", d.ecc_level), data_type_name: format!("{:?}", d.data_type) }),
            Err(e) => Err(quircs_fail_of(&e)),
        },
    }).collect()
}

/// Relies on rxing's Luma8LuminanceSource, HybridBinarizer and
/// QRCodeReader::decode_with_hints: one decode attempt over the whole buffer;
/// the outcome is a function of the pixel data.
#[verifier::external_body]
fn rxing_call(px: &Vec<u8>, width: u32, height: u32) -> (r: Result<RxingHit, RxingFail>)
    requires
        px@.len() == (width as int) * (height as int),
    ensures
        rxing_read_view(r) == rxing_read(px@, width, height),
{
    let source = rxing::Luma8LuminanceSource::new(px.clone(), width, height);
    let mut bitmap = rxing::BinaryBitmap::new(rxing::common::HybridBinarizer::new(source));
    let hints = rxing::DecodeHints::default();
    let mut reader = rxing::qrcode::QRCodeReader::new();
    match reader.decode_with_hints(&mut bitmap, &hints) {
        Ok(res) => Ok(RxingHit { format_name: format!("{:?}", res.getBarcodeFormat()), text: res.getText().to_string() }),
        Err(e) => Err(rxing_fail_of(e)),
    }
}

/// Relies on bardecoder's default_decoder and Decoder::decode: locates and
/// decodes QR codes in the buffer; the outcome is a function of the pixel
/// data.
#[verifier::external_body]
fn bardecoder_call(px: &Vec<u8>, width: u32, height: u32) -> (r: Vec<Result<String, String>>)
    requires
        px@.len() == (width as int) * (height as int),
    ensures
        r@.map_values(|x: Result<String, String>| bardecoder_read_view(x)) == bardecoder_reads(px@, width, height),
{
    let gray = image::GrayImage::from_raw(width, height, px.clone()).unwrap();
    let img = image::DynamicImage::ImageLuma8(gray);
    let decoder = bardecoder::default_decoder();
    decoder.decode(&img).into_iter().map(|res| match res {
        Ok(text) => Ok(text),
        Err(e) => Err(format!("{:?}", e)),
    }).collect()
}

/// The raw per-grid outcomes rqrr reports for a frame.
pub fn rqrr_outcomes(px: &Vec<u8>, width: u32, height: u32) -> (r: Vec<Result<RqrrHit, RqrrFail>>)
    requires
        px@.len() == (width as int) * (height as int),
    ensures
        r@.map_values(|x: Result<RqrrHit, RqrrFail>| rqrr_read_view(x)) == rqrr_reads(px@, width, height),
        forall|i: int| 0 <= i < r@.len() ==> ((#[trigger] r@[i]) matches Ok(h) ==> 1 <= h.version <= 40),
{
    rqrr_call(px, width, height)
}

/// The raw per-code outcomes quircs reports for a frame.
pub fn quircs_outcomes(px: &Vec<u8>, width: u32, height: u32) -> (r: Vec<Result<QuircsHit, QuircsFail>>)
    requires
        px@.len() == (width as int) * (height as int),
    ensures
        r@.map_values(|x: Result<QuircsHit, QuircsFail>| quircs_read_view(x)) == quircs_reads(px@, width, height),
        forall|i: int| 0 <= i < r@.len() ==> ((#[trigger] r@[i]) matches Ok(h) ==> 1 <= h.version <= 40),
{
    quircs_call(px, width, height)
}

/// The outcome of rxing's single decode attempt on a frame.
pub fn rxing_outcome(px: &Vec<u8>, width: u32, height: u32) -> (r: Result<RxingHit, RxingFail>)
    requires
        px@.len() == (width as int) * (height as int),
    ensures
        rxing_read_view(r) == rxing_read(px@, width, height),
{
    rxing_call(px, width, height)
}

/// The raw per-code outcomes bardecoder reports for a frame.
pub fn bardecoder_outcomes(px: &Vec<u8>, width: u32, height: u32) -> (r: Vec<Result<String, String>>)
    requires
        px@.len() == (width as int) * (height as int),
    ensures
        r@.map_values(|x: Result<String, String>| bardecoder_read_view(x)) == bardecoder_reads(px@, width, height),
{
    bardecoder_call(px, width, height)
}

/// The texts of the grids rqrr decoded, in detection order.
pub open spec fn rqrr_hit_texts(reads: Seq<Result<(Seq<char>, usize, u16), RqrrFail>>) -> Seq<Seq<char>>
    decreases reads.len(),
{
    if reads.len() == 0 {
        Seq::empty()
    } else {
        let rest = rqrr_hit_texts(reads.drop_last());
        match reads.last() {
            Ok(h) => rest.push(h.0),
            Err(_) => rest,
        }
    }
}

/// The texts of the codes quircs decoded to valid UTF-8, in detection order.
pub open spec fn quircs_hit_texts(reads: Seq<Result<(Seq<u8>, usize, Seq<char>, Seq<char>), QuircsFail>>) -> Seq<Seq<char>>
    decreases reads.len(),
{
    if reads.len() == 0 {
        Seq::empty()
    } else {
        let rest = quircs_hit_texts(reads.drop_last());
        match reads.last() {
            Ok(h) => if valid_utf8(h.0) { rest.push(decode_utf8(h.0)) } else { rest },
            Err(_) => rest,
        }
    }
}

/// The texts of rxing's decode attempt: one on success, none on any failure.
pub open spec fn rxing_hit_texts(read: Result<(Seq<char>, Seq<char>), RxingFailV>) -> Seq<Seq<char>> {
    match read {
        Ok(h) => seq![h.0],
        Err(_) => Seq::empty(),
    }
}

/// The texts of the codes bardecoder decoded, in detection order.
pub open spec fn bardecoder_hit_texts(reads: Seq<Result<Seq<char>, Seq<char>>>) -> Seq<Seq<char>>
    decreases reads.len(),
{
    if reads.len() == 0 {
        Seq::empty()
    } else {
        let rest = bardecoder_hit_texts(reads.drop_last());
        match reads.last() {
            Ok(t) => rest.push(t),
            Err(_) => rest,
        }
    }
}

} // verus!
