//! Diagnostic analyzer: runs a reduced engine set against the first
//! preprocessed variant, classifies every failure into a fixed diagnostic
//! vocabulary with a causal explanation, and derives remediation hints from
//! the aggregate failure pattern.

use vstd::prelude::*;
use vstd::string::StringExecFns;
use vstd::utf8::valid_utf8;
use vstd::utf8::decode_utf8;
use crate::engines::RqrrFail;
use crate::engines::QuircsFail;
use crate::engines::RxingFail;
use crate::engines::RxingFailV;
use crate::engines::rqrr_outcomes;
use crate::engines::quircs_outcomes;
use crate::engines::rxing_outcome;
use crate::engines::rqrr_reads;
use crate::engines::quircs_reads;
use crate::engines::rxing_read;
use crate::engines::rqrr_read_view;
use crate::engines::quircs_read_view;
use crate::engines::rxing_fail_view;
use crate::engines::RqrrHit;
use crate::engines::QuircsHit;
use crate::engines::bytes_to_text;
use crate::imgio::load_working_frame;
use crate::imgio::image_ok;
use crate::imgio::gray_frame_of;
use crate::imgio::working_frame_of;
use crate::preprocessor::FrameV;
use crate::preprocessor::GrayVariant;
use crate::preprocessor::ImagePreprocessor;
use crate::preprocessor::gen_spec;
use crate::strutil::dec_spec;
use crate::strutil::u64_dec;

verus! {

/// The fixed diagnostic vocabulary failures are classified into.
#[derive(Debug, Clone, Copy, PartialEq, Eq, Structural)]
pub enum DiagCategory {
    /// Data-region error correction was overwhelmed.
    DataCorrection,
    /// The format metadata next to the finder patterns is unreadable.
    FormatMetadata,
    /// The detected grid or version does not match the standard.
    VersionStructure,
    /// The data volume is too large or too small for the detected version.
    DataVolume,
    /// The payload encoding is unknown or unsupported.
    Encoding,
    /// Module extraction left the image bounds.
    OutOfBounds,
    /// Anything else.
    Unknown,
}

/// Analysis result for a single detected grid.
#[derive(Debug)]
pub struct GridAnalysis {
    pub grid_index: usize,
    pub version: Option<u32>,
    pub module_size: Option<(u32, u32)>,
    pub decode_success: bool,
    pub error_type: Option<String>,
    pub category: Option<DiagCategory>,
    pub error_detail: String,
    pub content: Option<String>,
}

/// The mathematical value of a grid analysis.
#[verifier::ext_equal]
pub struct GridAnalysisV {
    pub grid_index: usize,
    pub version: Option<u32>,
    pub module_size: Option<(u32, u32)>,
    pub decode_success: bool,
    pub error_type: Option<Seq<char>>,
    pub category: Option<DiagCategory>,
    pub error_detail: Seq<char>,
    pub content: Option<Seq<char>>,
}

impl View for GridAnalysis {
    type V = GridAnalysisV;

    open spec fn view(&self) -> GridAnalysisV {
        GridAnalysisV {
            grid_index: self.grid_index,
            version: self.version,
            module_size: self.module_size,
            decode_success: self.decode_success,
            error_type: match self.error_type {
                Some(t) => Some(t@),
                None => None,
            },
            category: self.category,
            error_detail: self.error_detail@,
            content: match self.content {
                Some(t) => Some(t@),
                None => None,
            },
        }
    }
}

/// Analysis result for a single engine.
#[derive(Debug)]
pub struct EngineAnalysis {
    pub engine_name: String,
    pub grids_detected: usize,
    pub decode_results: Vec<GridAnalysis>,
    pub success: bool,
    pub summary: String,
}

/// The mathematical value of an engine analysis.
#[verifier::ext_equal]
pub struct EngineAnalysisV {
    pub engine_name: Seq<char>,
    pub grids_detected: usize,
    pub decode_results: Seq<GridAnalysisV>,
    pub success: bool,
    pub summary: Seq<char>,
}

impl View for EngineAnalysis {
    type V = EngineAnalysisV;

    open spec fn view(&self) -> EngineAnalysisV {
        EngineAnalysisV {
            engine_name: self.engine_name@,
            grids_detected: self.grids_detected,
            decode_results: grid_views(self.decode_results@),
            success: self.success,
            summary: self.summary@,
        }
    }
}

/// Detailed QR code analysis result.
#[derive(Debug)]
pub struct AnalysisReport {
    pub file_path: String,
    pub image_size: (u32, u32),
    pub variants_tested: usize,
    pub engine_analyses: Vec<EngineAnalysis>,
    pub overall_success: bool,
    pub recommendations: Vec<String>,
}

/// The views of a sequence of engine analyses.
pub open spec fn analyses_of(s: Seq<EngineAnalysis>) -> Seq<EngineAnalysisV> {
    s.map_values(|a: EngineAnalysis| a@)
}

/// The views of a sequence of grid analyses.
pub open spec fn grid_views(s: Seq<GridAnalysis>) -> Seq<GridAnalysisV> {
    s.map_values(|g: GridAnalysis| g@)
}

/// The category an rqrr failure is classified into.
pub open spec fn rqrr_error_category(e: RqrrFail) -> DiagCategory {
    match e {
        RqrrFail::IoError => DiagCategory::Unknown,
        RqrrFail::DataUnderflow => DiagCategory::DataVolume,
        RqrrFail::DataOverflow => DiagCategory::DataVolume,
        RqrrFail::UnknownDataType => DiagCategory::Encoding,
        RqrrFail::DataEcc => DiagCategory::DataCorrection,
        RqrrFail::FormatEcc => DiagCategory::FormatMetadata,
        RqrrFail::InvalidVersion => DiagCategory::VersionStructure,
        RqrrFail::InvalidGridSize => DiagCategory::VersionStructure,
        RqrrFail::EncodingError => DiagCategory::Encoding,
    }
}

/// The fixed error tag of an rqrr failure.
pub open spec fn rqrr_error_code(e: RqrrFail) -> Seq<char> {
    match e {
        RqrrFail::IoError => "IoError"@,
        RqrrFail::DataUnderflow => "DataUnderflow"@,
        RqrrFail::DataOverflow => "DataOverflow"@,
        RqrrFail::UnknownDataType => "UnknownDataType"@,
        RqrrFail::DataEcc => "DataEcc"@,
        RqrrFail::FormatEcc => "FormatEcc"@,
        RqrrFail::InvalidVersion => "InvalidVersion"@,
        RqrrFail::InvalidGridSize => "InvalidGridSize"@,
        RqrrFail::EncodingError => "EncodingError"@,
    }
}

/// The fixed causal explanation of an rqrr failure.
pub open spec fn rqrr_error_detail(e: RqrrFail) -> Seq<char> {
    match e {
        RqrrFail::IoError => "I/O 错误: 输出写入失败。"@,
        RqrrFail::DataUnderflow => "数据不足: QR 码数据区域的码字数量少于预期。\n可能原因: 图像模糊、码点缺损、版本检测错误。"@,
        RqrrFail::DataOverflow => "数据溢出: QR 码数据区域的码字数量超出预期。\n可能原因: 版本检测错误、干扰码点被误读。"@,
        RqrrFail::UnknownDataType => "未知数据类型: 无法识别 QR 码的编码模式。\n可能原因: 数据区域损坏、纠错失败导致模式指示符错误。"@,
        RqrrFail::DataEcc => "数据纠错失败: RS 纠错码无法恢复数据。\n可能原因: 码点损坏超出纠错能力、污染或遮挡严重。\n这是最常见的失败原因，通常意味着 QR 码损坏程度超过了纠错等级的容错能力。"@,
        RqrrFail::FormatEcc => "格式信息纠错失败: 无法从两个位置读取有效的格式信息。\n可能原因: 定位图案周围的格式区域损坏。\n格式信息包含纠错等级和掩码图案，位于 QR 码的固定位置。"@,
        RqrrFail::InvalidVersion => "无效版本: 检测到不支持或不存在的 QR 码版本。\n可能原因: 版本信息区域损坏 (版本 7+ 的 QR 码有专门的版本信息区)。"@,
        RqrrFail::InvalidGridSize => "无效网格尺寸: 检测到的 QR 码尺寸不符合规范。\n可能原因: 图像变形、定位图案检测错误。"@,
        RqrrFail::EncodingError => "编码错误: 解码后的数据不是有效的 UTF-8。\n可能原因: QR 码使用了非 UTF-8 编码 (如 Shift-JIS)。"@,
    }
}

/// The category a quircs failure is classified into.
pub open spec fn quircs_error_category(e: QuircsFail) -> DiagCategory {
    match e {
        QuircsFail::InvalidGridSize => DiagCategory::VersionStructure,
        QuircsFail::InvalidVersion => DiagCategory::VersionStructure,
        QuircsFail::DataEcc => DiagCategory::DataCorrection,
        QuircsFail::FormatEcc => DiagCategory::FormatMetadata,
        QuircsFail::UnknownDataType => DiagCategory::Encoding,
        QuircsFail::DataOverflow => DiagCategory::DataVolume,
        QuircsFail::DataUnderflow => DiagCategory::DataVolume,
        QuircsFail::OutOfBounds => DiagCategory::OutOfBounds,
    }
}

/// The fixed error tag of a quircs failure.
pub open spec fn quircs_error_code(e: QuircsFail) -> Seq<char> {
    match e {
        QuircsFail::InvalidGridSize => "InvalidGridSize"@,
        QuircsFail::InvalidVersion => "InvalidVersion"@,
        QuircsFail::DataEcc => "DataEcc"@,
        QuircsFail::FormatEcc => "FormatEcc"@,
        QuircsFail::UnknownDataType => "UnknownDataType"@,
        QuircsFail::DataOverflow => "DataOverflow"@,
        QuircsFail::DataUnderflow => "DataUnderflow"@,
        QuircsFail::OutOfBounds => "OutOfBounds"@,
    }
}

/// The fixed causal explanation of a quircs failure.
pub open spec fn quircs_error_detail(e: QuircsFail) -> Seq<char> {
    match e {
        QuircsFail::InvalidGridSize => "无效网格尺寸: QR 码的模块数量不符合规范 (应为 21+4n)。"@,
        QuircsFail::InvalidVersion => "无效版本: 检测到的版本号超出 1-40 的有效范围。"@,
        QuircsFail::DataEcc => "数据纠错失败: RS 码无法恢复损坏的数据码字。\nQR 码损坏程度超过了纠错能力。"@,
        QuircsFail::FormatEcc => "格式信息错误: 无法读取纠错等级和掩码信息。\n定位图案周围的 15 位格式信息区域损坏。"@,
        QuircsFail::UnknownDataType => "未知数据类型: 数据模式指示符无法识别 (0001=数字, 0010=字母数字, 0100=字节, 1000=汉字)。"@,
        QuircsFail::DataOverflow => "数据溢出: 解码的数据长度超出该版本容量。"@,
        QuircsFail::DataUnderflow => "数据不足: 数据码字不完整。"@,
        QuircsFail::OutOfBounds => "越界错误: 提取码点时坐标超出图像边界。\n可能原因: QR 码靠近图像边缘、透视变换计算错误。"@,
    }
}

/// The category an rxing failure is classified into.
pub open spec fn rxing_error_category(e: RxingFailV) -> DiagCategory {
    match e {
        RxingFailV::NotFound(_) => DiagCategory::Unknown,
        RxingFailV::Format(_) => DiagCategory::FormatMetadata,
        RxingFailV::Checksum(_) => DiagCategory::DataCorrection,
        RxingFailV::ReedSolomon(_) => DiagCategory::DataCorrection,
        RxingFailV::Other(_) => DiagCategory::Unknown,
    }
}

/// The error tag of an rxing failure; for an unclassified exception it is the
/// engine's own rendering of the error.
pub open spec fn rxing_error_code(e: RxingFailV) -> Seq<char> {
    match e {
        RxingFailV::NotFound(_) => "NotFoundException"@,
        RxingFailV::Format(_) => "FormatException"@,
        RxingFailV::Checksum(_) => "ChecksumException"@,
        RxingFailV::ReedSolomon(_) => "ReedSolomonException"@,
        RxingFailV::Other(m) => m,
    }
}

/// The engine's message, or a fixed note when it is empty.
pub open spec fn rxing_msg_or_default(m: Seq<char>) -> Seq<char> {
    if m.len() == 0 {
        "无详细信息"@
    } else {
        m
    }
}

/// The causal explanation of an rxing failure.
pub open spec fn rxing_error_detail(e: RxingFailV) -> Seq<char> {
    match e {
        RxingFailV::NotFound(_) => "未找到 QR 码: 无法在图像中检测到有效的 QR 码定位图案。\n可能原因: 图像模糊、对比度不足、QR 码被遮挡或变形。"@,
        RxingFailV::Format(m) => "格式错误: 检测到的图案不符合 QR 码规范。\n详情: "@
            + rxing_msg_or_default(m) + "\n可能原因: 图像噪点、非标准 QR 码。"@,
        RxingFailV::Checksum(m) => "校验和错误: 数据验证失败。\n详情: "@
            + rxing_msg_or_default(m) + "\n可能原因: 数据区域损坏、纠错能力不足。"@,
        RxingFailV::ReedSolomon(m) => "Reed-Solomon 纠错失败: 无法恢复损坏的码字。\n详情: "@
            + rxing_msg_or_default(m) + "\n这是 QR 码纠错算法层面的失败，意味着损坏程度超过了容错能力。"@,
        RxingFailV::Other(_) => "其他错误，请查看详细日志。"@,
    }
}

/// The per-grid analysis rqrr's outcome maps to.
pub open spec fn rqrr_grid_spec(i: usize, read: Result<(Seq<char>, usize, u16), RqrrFail>) -> GridAnalysisV {
    match read {
        Ok(h) => GridAnalysisV {
            grid_index: i,
            version: None,
            module_size: None,
            decode_success: true,
            error_type: None,
            category: None,
            error_detail: "Version "@ + dec_spec(h.1 as int) + ", ECC level "@
                + dec_spec(h.2 as int) + ", "@ + dec_spec(4 * (h.1 as int) + 17) + " modules"@,
            content: Some(h.0),
        },
        Err(e) => GridAnalysisV {
            grid_index: i,
            version: None,
            module_size: None,
            decode_success: false,
            error_type: Some(rqrr_error_code(e)),
            category: Some(rqrr_error_category(e)),
            error_detail: rqrr_error_detail(e),
            content: None,
        },
    }
}

/// The per-code analysis quircs's outcome maps to.
pub open spec fn quircs_grid_spec(i: usize, read: Result<(Seq<u8>, usize, Seq<char>, Seq<char>), QuircsFail>) -> GridAnalysisV {
    match read {
        Ok(h) => GridAnalysisV {
            grid_index: i,
            version: None,
            module_size: None,
            decode_success: true,
            error_type: None,
            category: None,
            error_detail: "Version "@ + dec_spec(h.1 as int) + ", ECC level "@ + h.2
                + ", Data type "@ + h.3,
            content: Some(
                if valid_utf8(h.0) {
                    decode_utf8(h.0)
                } else {
                    "<binary data>"@
                },
            ),
        },
        Err(e) => GridAnalysisV {
            grid_index: i,
            version: None,
            module_size: None,
            decode_success: false,
            error_type: Some(quircs_error_code(e)),
            category: Some(quircs_error_category(e)),
            error_detail: quircs_error_detail(e),
            content: None,
        },
    }
}

/// The single-entry analysis rxing's attempt maps to.
pub open spec fn rxing_grid_spec(read: Result<(Seq<char>, Seq<char>), RxingFailV>) -> GridAnalysisV {
    match read {
        Ok(h) => GridAnalysisV {
            grid_index: 0,
            version: None,
            module_size: None,
            decode_success: true,
            error_type: None,
            category: None,
            error_detail: "Format: "@ + h.1,
            content: Some(h.0),
        },
        Err(e) => GridAnalysisV {
            grid_index: 0,
            version: None,
            module_size: None,
            decode_success: false,
            error_type: Some(rxing_error_code(e)),
            category: Some(rxing_error_category(e)),
            error_detail: rxing_error_detail(e),
            content: None,
        },
    }
}

/// The per-grid analyses for the whole rqrr outcome list.
pub open spec fn rqrr_grids_spec(reads: Seq<Result<(Seq<char>, usize, u16), RqrrFail>>) -> Seq<GridAnalysisV> {
    Seq::new(reads.len(), |i: int| rqrr_grid_spec(i as usize, reads[i]))
}

/// The per-code analyses for the whole quircs outcome list.
pub open spec fn quircs_grids_spec(reads: Seq<Result<(Seq<u8>, usize, Seq<char>, Seq<char>), QuircsFail>>) -> Seq<GridAnalysisV> {
    Seq::new(reads.len(), |i: int| quircs_grid_spec(i as usize, reads[i]))
}

/// How many outcomes decoded successfully.
pub open spec fn ok_count<A, B>(reads: Seq<Result<A, B>>) -> int
    decreases reads.len(),
{
    if reads.len() == 0 {
        0
    } else {
        ok_count(reads.drop_last()) + if reads.last() is Ok {
            1int
        } else {
            0int
        }
    }
}

/// Whether any outcome decoded successfully.
pub open spec fn any_ok<A, B>(reads: Seq<Result<A, B>>) -> bool {
    exists|i: int| 0 <= i < reads.len() && reads[i] is Ok
}

/// The one-line summary for a list of outcomes, with the engine's own wording
/// for its detected regions.
pub open spec fn summary_spec<A, B>(reads: Seq<Result<A, B>>, ok_suffix: Seq<char>, fail_suffix: Seq<char>) -> Seq<char> {
    if reads.len() == 0 {
        "No QR code patterns detected"@
    } else if any_ok(reads) {
        "Successfully decoded "@ + dec_spec(ok_count(reads)) + "/"@ + dec_spec(reads.len() as int)
            + ok_suffix
    } else {
        "Detected "@ + dec_spec(reads.len() as int) + fail_suffix
    }
}

proof fn lemma_ok_count_bound<A, B>(reads: Seq<Result<A, B>>)
    ensures
        0 <= ok_count(reads) <= reads.len(),
    decreases reads.len(),
{
    if reads.len() > 0 {
        lemma_ok_count_bound(reads.drop_last());
    }
}

proof fn lemma_total_grids_nonneg(a: Seq<EngineAnalysisV>)
    ensures
        total_grids(a) >= 0,
    decreases a.len(),
{
    if a.len() > 0 {
        lemma_total_grids_nonneg(a.drop_last());
    }
}

/// The full engine analysis rqrr's outcomes map to.
pub open spec fn rqrr_analysis_spec(reads: Seq<Result<(Seq<char>, usize, u16), RqrrFail>>, vname: Seq<char>) -> EngineAnalysisV {
    EngineAnalysisV {
        engine_name: "rqrr ("@ + vname + ")"@,
        grids_detected: reads.len() as usize,
        decode_results: rqrr_grids_spec(reads),
        success: any_ok(reads),
        summary: summary_spec(reads, " grids"@, " grids but all failed to decode"@),
    }
}

/// The full engine analysis quircs's outcomes map to.
pub open spec fn quircs_analysis_spec(reads: Seq<Result<(Seq<u8>, usize, Seq<char>, Seq<char>), QuircsFail>>, vname: Seq<char>) -> EngineAnalysisV {
    EngineAnalysisV {
        engine_name: "quircs ("@ + vname + ")"@,
        grids_detected: reads.len() as usize,
        decode_results: quircs_grids_spec(reads),
        success: any_ok(reads),
        summary: summary_spec(reads, " codes"@, " codes but all failed to decode"@),
    }
}

/// The full engine analysis rxing's attempt maps to.
pub open spec fn rxing_analysis_spec(read: Result<(Seq<char>, Seq<char>), RxingFailV>, vname: Seq<char>) -> EngineAnalysisV {
    EngineAnalysisV {
        engine_name: "rxing ("@ + vname + ")"@,
        grids_detected: if read is Ok { 1 as usize } else { 0 as usize },
        decode_results: seq![rxing_grid_spec(read)],
        success: read is Ok,
        summary: if read is Ok {
            "Successfully decoded 1 QR code"@
        } else {
            "Detection failed: "@ + rxing_error_code(read->Err_0)
        },
    }
}

/// The total of detected regions over all analyses.
pub open spec fn total_grids(a: Seq<EngineAnalysisV>) -> int
    decreases a.len(),
{
    if a.len() == 0 {
        0
    } else {
        total_grids(a.drop_last()) + a.last().grids_detected
    }
}

/// Whether any analysis classified some region's failure into the category.
pub open spec fn has_category(a: Seq<EngineAnalysisV>, c: DiagCategory) -> bool {
    exists|i: int, j: int|
        0 <= i < a.len() && 0 <= j < a[i].decode_results.len() && a[i].decode_results[j].category
            == Some(c)
}

/// Whether any engine decoded something.
pub open spec fn any_analysis_success(a: Seq<EngineAnalysisV>) -> bool {
    exists|i: int| 0 <= i < a.len() && a[i].success
}

/// The recommendation list derived from the aggregate classification: a
/// "no pattern found" hint when no engine located any region; otherwise a
/// "recoverable with a cleaner image" hint for data-correction failures, a
/// "corner region damage" hint for format-metadata failures, and a generic
/// re-capture hint when regions were found but nothing decoded and neither
/// fired.
pub open spec fn recs_spec(a: Seq<EngineAnalysisV>) -> Seq<Seq<char>> {
    if total_grids(a) == 0 {
        seq![rec_no_pattern()]
    } else {
        let dc: Seq<Seq<char>> = if has_category(a, DiagCategory::DataCorrection) {
            seq![rec_data_correction()]
        } else {
            Seq::empty()
        };
        let fm: Seq<Seq<char>> = if has_category(a, DiagCategory::FormatMetadata) {
            seq![rec_format_metadata()]
        } else {
            Seq::empty()
        };
        let gen: Seq<Seq<char>> = if dc.len() == 0 && fm.len() == 0 && !any_analysis_success(a) {
            seq![rec_generic()]
        } else {
            Seq::empty()
        };
        dc + fm + gen
    }
}

pub open spec fn rec_no_pattern() -> Seq<char> {
    "未检测到任何 QR 码图案。建议:\n1. 检查图像是否包含 QR 码\n2. 尝试提高图像对比度\n3. 确保 QR 码完整可见，没有被裁剪\n4. 如果 QR 码很小，尝试放大图像"@
}

pub open spec fn rec_data_correction() -> Seq<char> {
    "数据纠错失败 (DataEcc) 是最常见的问题。建议:\n1. QR 码可能损坏严重 - 检查是否有污渍、划痕或褪色\n2. 尝试更清晰的图像源\n3. 如果是印刷品，确保扫描分辨率足够 (至少 300 DPI)\n4. 检查 QR 码生成时使用的纠错等级 (L/M/Q/H)"@
}

pub open spec fn rec_format_metadata() -> Seq<char> {
    "格式信息错误 (FormatEcc) 表示 QR 码的元数据区域损坏。建议:\n1. 检查 QR 码三个角的定位图案周围区域\n2. 格式信息位于定位图案旁的 L 形区域\n3. 这些区域不能有任何损坏"@
}

pub open spec fn rec_generic() -> Seq<char> {
    "所有引擎都检测到了 QR 码但解码失败。建议:\n1. 尝试调整图像亮度和对比度\n2. 使用 --debug 模式查看更多细节\n3. 尝试不同角度重新拍摄"@
}

/// What the analyzer promises of a report built over the grayscale base `b`:
/// the three engine analyses of the first variant, in the fixed order, the
/// overall flag, and the derived recommendations.
pub open spec fn analyze_post(b: FrameV, rep: AnalysisReport) -> bool {
    let f = gen_spec(b)[0];
    let a = analyses_of(rep.engine_analyses@);
    &&& gen_spec(b).len() >= 1
    &&& rep.variants_tested == gen_spec(b).len()
    &&& a.len() == 3
    &&& a[0] == rqrr_analysis_spec(rqrr_reads(f.pixels, f.width, f.height), "original"@)
    &&& a[1] == quircs_analysis_spec(quircs_reads(f.pixels, f.width, f.height), "original"@)
    &&& a[2] == rxing_analysis_spec(rxing_read(f.pixels, f.width, f.height), "original"@)
    &&& rep.overall_success == any_analysis_success(a)
    &&& rep.recommendations@.map_values(|s: String| s@) == recs_spec(a)
}

proof fn lemma_total_grids_zero(a: Seq<EngineAnalysisV>)
    ensures
        (total_grids(a) == 0) <==> (forall|i: int|
            0 <= i < a.len() ==> (#[trigger] a[i]).grids_detected == 0),
    decreases a.len(),
{
    if a.len() > 0 {
        lemma_total_grids_zero(a.drop_last());
        lemma_total_grids_nonneg(a.drop_last());
        assert forall|i: int|
            0 <= i < a.drop_last().len() implies a.drop_last()[i] == a[i] by {}
        if total_grids(a) == 0 {
            assert forall|i: int| 0 <= i < a.len() implies (#[trigger] a[i]).grids_detected
                == 0 by {
                if i < a.len() - 1 {
                    assert(a.drop_last()[i] == a[i]);
                } else {
                    assert(a.last() == a[i]);
                }
            }
        }
    }
}

/// QR code debug analyzer.
pub struct QrAnalyzer;

impl QrAnalyzer {
    pub fn new() -> QrAnalyzer {
        QrAnalyzer
    }

    /// Classify an rqrr failure: its fixed error tag and causal explanation.
    pub fn analyze_rqrr_error(&self, error: &RqrrFail) -> (r: (String, String))
        ensures
            r.0@ == rqrr_error_code(*error),
            r.1@ == rqrr_error_detail(*error),
    {
        match error {
            RqrrFail::IoError => ("IoError".to_owned(), "I/O 错误: 输出写入失败。".to_owned()),
            RqrrFail::DataUnderflow => (
                "DataUnderflow".to_owned(),
                "数据不足: QR 码数据区域的码字数量少于预期。\n可能原因: 图像模糊、码点缺损、版本检测错误。".to_owned(),
            ),
            RqrrFail::DataOverflow => (
                "DataOverflow".to_owned(),
                "数据溢出: QR 码数据区域的码字数量超出预期。\n可能原因: 版本检测错误、干扰码点被误读。".to_owned(),
            ),
            RqrrFail::UnknownDataType => (
                "UnknownDataType".to_owned(),
                "未知数据类型: 无法识别 QR 码的编码模式。\n可能原因: 数据区域损坏、纠错失败导致模式指示符错误。".to_owned(),
            ),
            RqrrFail::DataEcc => (
                "DataEcc".to_owned(),
                "数据纠错失败: RS 纠错码无法恢复数据。\n可能原因: 码点损坏超出纠错能力、污染或遮挡严重。\n这是最常见的失败原因，通常意味着 QR 码损坏程度超过了纠错等级的容错能力。".to_owned(),
            ),
            RqrrFail::FormatEcc => (
                "FormatEcc".to_owned(),
                "格式信息纠错失败: 无法从两个位置读取有效的格式信息。\n可能原因: 定位图案周围的格式区域损坏。\n格式信息包含纠错等级和掩码图案，位于 QR 码的固定位置。".to_owned(),
            ),
            RqrrFail::InvalidVersion => (
                "InvalidVersion".to_owned(),
                "无效版本: 检测到不支持或不存在的 QR 码版本。\n可能原因: 版本信息区域损坏 (版本 7+ 的 QR 码有专门的版本信息区)。".to_owned(),
            ),
            RqrrFail::InvalidGridSize => (
                "InvalidGridSize".to_owned(),
                "无效网格尺寸: 检测到的 QR 码尺寸不符合规范。\n可能原因: 图像变形、定位图案检测错误。".to_owned(),
            ),
            RqrrFail::EncodingError => (
                "EncodingError".to_owned(),
                "编码错误: 解码后的数据不是有效的 UTF-8。\n可能原因: QR 码使用了非 UTF-8 编码 (如 Shift-JIS)。".to_owned(),
            ),
        }
    }

    /// The category an rqrr failure falls under.
    pub fn rqrr_category(&self, error: &RqrrFail) -> (c: DiagCategory)
        ensures
            c == rqrr_error_category(*error),
    {
        match error {
            RqrrFail::IoError => DiagCategory::Unknown,
            RqrrFail::DataUnderflow => DiagCategory::DataVolume,
            RqrrFail::DataOverflow => DiagCategory::DataVolume,
            RqrrFail::UnknownDataType => DiagCategory::Encoding,
            RqrrFail::DataEcc => DiagCategory::DataCorrection,
            RqrrFail::FormatEcc => DiagCategory::FormatMetadata,
            RqrrFail::InvalidVersion => DiagCategory::VersionStructure,
            RqrrFail::InvalidGridSize => DiagCategory::VersionStructure,
            RqrrFail::EncodingError => DiagCategory::Encoding,
        }
    }

    /// Classify a quircs failure: its fixed error tag and causal explanation.
    pub fn analyze_quircs_error(&self, error: &QuircsFail) -> (r: (String, String))
        ensures
            r.0@ == quircs_error_code(*error),
            r.1@ == quircs_error_detail(*error),
    {
        match error {
            QuircsFail::InvalidGridSize => (
                "InvalidGridSize".to_owned(),
                "无效网格尺寸: QR 码的模块数量不符合规范 (应为 21+4n)。".to_owned(),
            ),
            QuircsFail::InvalidVersion => (
                "InvalidVersion".to_owned(),
                "无效版本: 检测到的版本号超出 1-40 的有效范围。".to_owned(),
            ),
            QuircsFail::DataEcc => (
                "DataEcc".to_owned(),
                "数据纠错失败: RS 码无法恢复损坏的数据码字。\nQR 码损坏程度超过了纠错能力。".to_owned(),
            ),
            QuircsFail::FormatEcc => (
                "FormatEcc".to_owned(),
                "格式信息错误: 无法读取纠错等级和掩码信息。\n定位图案周围的 15 位格式信息区域损坏。".to_owned(),
            ),
            QuircsFail::UnknownDataType => (
                "UnknownDataType".to_owned(),
                "未知数据类型: 数据模式指示符无法识别 (0001=数字, 0010=字母数字, 0100=字节, 1000=汉字)。".to_owned(),
            ),
            QuircsFail::DataOverflow => (
                "DataOverflow".to_owned(),
                "数据溢出: 解码的数据长度超出该版本容量。".to_owned(),
            ),
            QuircsFail::DataUnderflow => (
                "DataUnderflow".to_owned(),
                "数据不足: 数据码字不完整。".to_owned(),
            ),
            QuircsFail::OutOfBounds => (
                "OutOfBounds".to_owned(),
                "越界错误: 提取码点时坐标超出图像边界。\n可能原因: QR 码靠近图像边缘、透视变换计算错误。".to_owned(),
            ),
        }
    }

    /// The category a quircs failure falls under.
    pub fn quircs_category(&self, error: &QuircsFail) -> (c: DiagCategory)
        ensures
            c == quircs_error_category(*error),
    {
        match error {
            QuircsFail::InvalidGridSize => DiagCategory::VersionStructure,
            QuircsFail::InvalidVersion => DiagCategory::VersionStructure,
            QuircsFail::DataEcc => DiagCategory::DataCorrection,
            QuircsFail::FormatEcc => DiagCategory::FormatMetadata,
            QuircsFail::UnknownDataType => DiagCategory::Encoding,
            QuircsFail::DataOverflow => DiagCategory::DataVolume,
            QuircsFail::DataUnderflow => DiagCategory::DataVolume,
            QuircsFail::OutOfBounds => DiagCategory::OutOfBounds,
        }
    }

    /// Classify an rxing failure: its error tag and causal explanation.
    pub fn analyze_rxing_error(&self, error: &RxingFail) -> (r: (String, String))
        ensures
            r.0@ == rxing_error_code(rxing_fail_view(*error)),
            r.1@ == rxing_error_detail(rxing_fail_view(*error)),
    {
        match error {
            RxingFail::NotFound(_) => (
                "NotFoundException".to_owned(),
                "未找到 QR 码: 无法在图像中检测到有效的 QR 码定位图案。\n可能原因: 图像模糊、对比度不足、QR 码被遮挡或变形。".to_owned(),
            ),
            RxingFail::Format(m) => {
                let mut d = "格式错误: 检测到的图案不符合 QR 码规范。\n详情: ".to_owned();
                if m.as_str().is_empty() {
                    d.append("无详细信息");
                } else {
                    d.append(m.as_str());
                }
                d.append("\n可能原因: 图像噪点、非标准 QR 码。");
                proof {
                    assert(d@ =~= rxing_error_detail(rxing_fail_view(*error)));
                }
                ("FormatException".to_owned(), d)
            },
            RxingFail::Checksum(m) => {
                let mut d = "校验和错误: 数据验证失败。\n详情: ".to_owned();
                if m.as_str().is_empty() {
                    d.append("无详细信息");
                } else {
                    d.append(m.as_str());
                }
                d.append("\n可能原因: 数据区域损坏、纠错能力不足。");
                proof {
                    assert(d@ =~= rxing_error_detail(rxing_fail_view(*error)));
                }
                ("ChecksumException".to_owned(), d)
            },
            RxingFail::ReedSolomon(m) => {
                let mut d = "Reed-Solomon 纠错失败: 无法恢复损坏的码字。\n详情: ".to_owned();
                if m.as_str().is_empty() {
                    d.append("无详细信息");
                } else {
                    d.append(m.as_str());
                }
                d.append("\n这是 QR 码纠错算法层面的失败，意味着损坏程度超过了容错能力。");
                proof {
                    assert(d@ =~= rxing_error_detail(rxing_fail_view(*error)));
                }
                ("ReedSolomonException".to_owned(), d)
            },
            RxingFail::Other(m) => (m.clone(), "其他错误，请查看详细日志。".to_owned()),
        }
    }

    /// The category an rxing failure falls under.
    pub fn rxing_category(&self, error: &RxingFail) -> (c: DiagCategory)
        ensures
            c == rxing_error_category(rxing_fail_view(*error)),
    {
        match error {
            RxingFail::NotFound(_) => DiagCategory::Unknown,
            RxingFail::Format(_) => DiagCategory::FormatMetadata,
            RxingFail::Checksum(_) => DiagCategory::DataCorrection,
            RxingFail::ReedSolomon(_) => DiagCategory::DataCorrection,
            RxingFail::Other(_) => DiagCategory::Unknown,
        }
    }

    /// Detailed analysis using rqrr.
    pub fn analyze_with_rqrr(&self, gray_img: &GrayVariant, variant_name: &str) -> (r: EngineAnalysis)
        requires
            gray_img@.wf(),
        ensures
            r@ == rqrr_analysis_spec(
                rqrr_reads(gray_img@.pixels, gray_img@.width, gray_img@.height),
                variant_name@,
            ),
    {
        let outcomes = rqrr_outcomes(&gray_img.pixels, gray_img.width, gray_img.height);
        let ghost reads = rqrr_reads(gray_img@.pixels, gray_img@.width, gray_img@.height);
        let grids_detected = outcomes.len();
        let mut decode_results: Vec<GridAnalysis> = Vec::new();
        let mut n_success: usize = 0;
        let mut i: usize = 0;
        while i < outcomes.len()
            invariant
                i <= outcomes@.len(),
                reads == outcomes@.map_values(|x: Result<RqrrHit, RqrrFail>| rqrr_read_view(x)),
                forall|k: int|
                    0 <= k < outcomes@.len() ==> ((#[trigger] outcomes@[k]) matches Ok(h) ==> 1
                        <= h.version <= 40),
                grid_views(decode_results@) == rqrr_grids_spec(reads.take(i as int)),
                n_success as int == ok_count(reads.take(i as int)),
            decreases outcomes@.len() - i,
        {
            proof {
                assert(reads.take(i as int + 1).drop_last() =~= reads.take(i as int));
                assert(reads[i as int] == rqrr_read_view(outcomes@[i as int]));
                lemma_ok_count_bound(reads.take(i as int));
            }
            let ga = match &outcomes[i] {
                Ok(h) => {
                    let mut detail = "Version ".to_owned();
                    let vd = u64_dec(h.version as u64);
                    detail.append(vd.as_str());
                    detail.append(", ECC level ");
                    let ed = u64_dec(h.ecc_level as u64);
                    detail.append(ed.as_str());
                    detail.append(", ");
                    let md = u64_dec((h.version as u64) * 4 + 17);
                    detail.append(md.as_str());
                    detail.append(" modules");
                    n_success = n_success + 1;
                    GridAnalysis {
                        grid_index: i,
                        version: None,
                        module_size: None,
                        decode_success: true,
                        error_type: None,
                        category: None,
                        error_detail: detail,
                        content: Some(h.text.clone()),
                    }
                },
                Err(e) => {
                    let (code, detail) = self.analyze_rqrr_error(e);
                    let cat = self.rqrr_category(e);
                    GridAnalysis {
                        grid_index: i,
                        version: None,
                        module_size: None,
                        decode_success: false,
                        error_type: Some(code),
                        category: Some(cat),
                        error_detail: detail,
                        content: None,
                    }
                },
            };
            proof {
                assert(ga@ =~= rqrr_grid_spec(i, reads[i as int]));
            }
            let ghost pre = decode_results@;
            decode_results.push(ga);
            proof {
                let gv = grid_views(decode_results@);
                let gs = rqrr_grids_spec(reads.take(i as int + 1));
                assert(decode_results@ == pre.push(ga));
                assert(reads.len() == outcomes@.len());
                assert(grid_views(pre).len() == pre.len());
                assert(pre.len() == i as int);
                assert(gv.len() == i as int + 1);
                assert(gs.len() == i as int + 1);
                assert forall|k: int| 0 <= k < gv.len() implies gv[k] == gs[k] by {
                    assert(gs[k] == rqrr_grid_spec(k as usize, reads.take(i as int + 1)[k]));
                    if k < i as int {
                        assert(gv[k] == pre[k]@);
                        assert(grid_views(pre)[k] == pre[k]@);
                        assert(rqrr_grids_spec(reads.take(i as int))[k] == rqrr_grid_spec(
                            k as usize,
                            reads.take(i as int)[k],
                        ));
                        assert(reads.take(i as int + 1)[k] == reads.take(i as int)[k]);
                    } else {
                        assert(gv[k] == ga@);
                        assert(k as usize == i);
                        assert(reads.take(i as int + 1)[k] == reads[i as int]);
                    }
                }
                assert(gv =~= gs);
            }
            i += 1;
        }
        proof {
            assert(reads.take(reads.len() as int) =~= reads);
        }

        let any_success = n_success > 0;
        proof {
            lemma_ok_count_vs_any(reads);
        }
        let summary = if grids_detected == 0 {
            "No QR code patterns detected".to_owned()
        } else if any_success {
            let mut s = "Successfully decoded ".to_owned();
            let nd = u64_dec(n_success as u64);
            s.append(nd.as_str());
            s.append("/");
            let gd = u64_dec(grids_detected as u64);
            s.append(gd.as_str());
            s.append(" grids");
            s
        } else {
            let mut s = "Detected ".to_owned();
            let gd = u64_dec(grids_detected as u64);
            s.append(gd.as_str());
            s.append(" grids but all failed to decode");
            s
        };
        proof {
            assert(summary@ =~= summary_spec(reads, " grids"@, " grids but all failed to decode"@));
        }

        let mut engine_name = "rqrr (".to_owned();
        engine_name.append(variant_name);
        engine_name.append(")");
        let r = EngineAnalysis {
            engine_name,
            grids_detected,
            decode_results,
            success: any_success,
            summary,
        };
        proof {
            assert(r@ =~= rqrr_analysis_spec(reads, variant_name@));
        }
        r
    }

    /// Detailed analysis using quircs.
    pub fn analyze_with_quircs(&self, gray_img: &GrayVariant, variant_name: &str) -> (r: EngineAnalysis)
        requires
            gray_img@.wf(),
        ensures
            r@ == quircs_analysis_spec(
                quircs_reads(gray_img@.pixels, gray_img@.width, gray_img@.height),
                variant_name@,
            ),
    {
        let outcomes = quircs_outcomes(&gray_img.pixels, gray_img.width, gray_img.height);
        let ghost reads = quircs_reads(gray_img@.pixels, gray_img@.width, gray_img@.height);
        let grids_detected = outcomes.len();
        let mut decode_results: Vec<GridAnalysis> = Vec::new();
        let mut n_success: usize = 0;
        let mut i: usize = 0;
        while i < outcomes.len()
            invariant
                i <= outcomes@.len(),
                reads == outcomes@.map_values(
                    |x: Result<QuircsHit, QuircsFail>| quircs_read_view(x),
                ),
                grid_views(decode_results@) == quircs_grids_spec(reads.take(i as int)),
                n_success as int == ok_count(reads.take(i as int)),
            decreases outcomes@.len() - i,
        {
            proof {
                assert(reads.take(i as int + 1).drop_last() =~= reads.take(i as int));
                assert(reads[i as int] == quircs_read_view(outcomes@[i as int]));
                lemma_ok_count_bound(reads.take(i as int));
            }
            let ga = match &outcomes[i] {
                Ok(h) => {
                    let mut detail = "Version ".to_owned();
                    let vd = u64_dec(h.version as u64);
                    detail.append(vd.as_str());
                    detail.append(", ECC level ");
                    detail.append(h.ecc_name.as_str());
                    detail.append(", Data type ");
                    detail.append(h.data_type_name.as_str());
                    let content = match bytes_to_text(&h.payload) {
                        Some(t) => t,
                        None => "<binary data>".to_owned(),
                    };
                    n_success = n_success + 1;
                    GridAnalysis {
                        grid_index: i,
                        version: None,
                        module_size: None,
                        decode_success: true,
                        error_type: None,
                        category: None,
                        error_detail: detail,
                        content: Some(content),
                    }
                },
                Err(e) => {
                    let (code, detail) = self.analyze_quircs_error(e);
                    let cat = self.quircs_category(e);
                    GridAnalysis {
                        grid_index: i,
                        version: None,
                        module_size: None,
                        decode_success: false,
                        error_type: Some(code),
                        category: Some(cat),
                        error_detail: detail,
                        content: None,
                    }
                },
            };
            proof {
                assert(ga@ =~= quircs_grid_spec(i, reads[i as int]));
            }
            let ghost pre = decode_results@;
            decode_results.push(ga);
            proof {
                let gv = grid_views(decode_results@);
                let gs = quircs_grids_spec(reads.take(i as int + 1));
                assert(decode_results@ == pre.push(ga));
                assert(reads.len() == outcomes@.len());
                assert(grid_views(pre).len() == pre.len());
                assert(pre.len() == i as int);
                assert(gv.len() == i as int + 1);
                assert(gs.len() == i as int + 1);
                assert forall|k: int| 0 <= k < gv.len() implies gv[k] == gs[k] by {
                    assert(gs[k] == quircs_grid_spec(k as usize, reads.take(i as int + 1)[k]));
                    if k < i as int {
                        assert(gv[k] == pre[k]@);
                        assert(grid_views(pre)[k] == pre[k]@);
                        assert(quircs_grids_spec(reads.take(i as int))[k] == quircs_grid_spec(
                            k as usize,
                            reads.take(i as int)[k],
                        ));
                        assert(reads.take(i as int + 1)[k] == reads.take(i as int)[k]);
                    } else {
                        assert(gv[k] == ga@);
                        assert(k as usize == i);
                        assert(reads.take(i as int + 1)[k] == reads[i as int]);
                    }
                }
                assert(gv =~= gs);
            }
            i += 1;
        }
        proof {
            assert(reads.take(reads.len() as int) =~= reads);
        }

        let any_success = n_success > 0;
        proof {
            lemma_ok_count_vs_any(reads);
        }
        let summary = if grids_detected == 0 {
            "No QR code patterns detected".to_owned()
        } else if any_success {
            let mut s = "Successfully decoded ".to_owned();
            let nd = u64_dec(n_success as u64);
            s.append(nd.as_str());
            s.append("/");
            let gd = u64_dec(grids_detected as u64);
            s.append(gd.as_str());
            s.append(" codes");
            s
        } else {
            let mut s = "Detected ".to_owned();
            let gd = u64_dec(grids_detected as u64);
            s.append(gd.as_str());
            s.append(" codes but all failed to decode");
            s
        };
        proof {
            assert(summary@ =~= summary_spec(reads, " codes"@, " codes but all failed to decode"@));
        }

        let mut engine_name = "quircs (".to_owned();
        engine_name.append(variant_name);
        engine_name.append(")");
        let r = EngineAnalysis {
            engine_name,
            grids_detected,
            decode_results,
            success: any_success,
            summary,
        };
        proof {
            assert(r@ =~= quircs_analysis_spec(reads, variant_name@));
        }
        r
    }

    /// Detailed analysis using rxing.
    pub fn analyze_with_rxing(&self, gray_img: &GrayVariant, variant_name: &str) -> (r: EngineAnalysis)
        requires
            gray_img@.wf(),
        ensures
            r@ == rxing_analysis_spec(
                rxing_read(gray_img@.pixels, gray_img@.width, gray_img@.height),
                variant_name@,
            ),
    {
        let outcome = rxing_outcome(&gray_img.pixels, gray_img.width, gray_img.height);
        let ghost read = rxing_read(gray_img@.pixels, gray_img@.width, gray_img@.height);
        let mut decode_results: Vec<GridAnalysis> = Vec::new();

        let (grids_detected, any_success, summary): (usize, bool, String) = match &outcome {
            Ok(h) => {
                let mut detail = "Format: ".to_owned();
                detail.append(h.format_name.as_str());
                let ga = GridAnalysis {
                    grid_index: 0,
                    version: None,
                    module_size: None,
                    decode_success: true,
                    error_type: None,
                    category: None,
                    error_detail: detail,
                    content: Some(h.text.clone()),
                };
                proof {
                    assert(ga@ =~= rxing_grid_spec(read));
                }
                decode_results.push(ga);
                (1, true, "Successfully decoded 1 QR code".to_owned())
            },
            Err(e) => {
                let (code, detail) = self.analyze_rxing_error(e);
                let cat = self.rxing_category(e);
                let ga = GridAnalysis {
                    grid_index: 0,
                    version: None,
                    module_size: None,
                    decode_success: false,
                    error_type: Some(code),
                    category: Some(cat),
                    error_detail: detail,
                    content: None,
                };
                proof {
                    assert(ga@ =~= rxing_grid_spec(read));
                }
                decode_results.push(ga);
                let mut s = "Detection failed: ".to_owned();
                let (code2, _) = self.analyze_rxing_error(e);
                s.append(code2.as_str());
                proof {
                    assert(s@ =~= "Detection failed: "@ + rxing_error_code(read->Err_0));
                }
                (0, false, s)
            },
        };

        let mut engine_name = "rxing (".to_owned();
        engine_name.append(variant_name);
        engine_name.append(")");
        let r = EngineAnalysis {
            engine_name,
            grids_detected,
            decode_results,
            success: any_success,
            summary,
        };
        proof {
            assert(r@.decode_results =~= seq![rxing_grid_spec(read)]);
            assert(r@ =~= rxing_analysis_spec(read, variant_name@));
        }
        r
    }

    /// Generate recommendations from the aggregate classification.
    pub fn generate_recommendations(&self, analyses: &Vec<EngineAnalysis>) -> (r: Vec<String>)
        ensures
            r@.map_values(|s: String| s@) == recs_spec(analyses_of(analyses@)),
    {
        let ghost av = analyses_of(analyses@);
        let mut recommendations: Vec<String> = Vec::new();

        // Is any region detected at all?
        let mut all_zero = true;
        let mut i: usize = 0;
        while i < analyses.len()
            invariant
                i <= analyses@.len(),
                av == analyses_of(analyses@),
                all_zero == (forall|k: int|
                    0 <= k < i ==> (#[trigger] av[k]).grids_detected == 0),
            decreases analyses@.len() - i,
        {
            proof {
                assert(av[i as int] == analyses@[i as int]@);
            }
            if analyses[i].grids_detected != 0 {
                all_zero = false;
            }
            i += 1;
        }
        proof {
            lemma_total_grids_zero(av);
        }
        if all_zero {
            recommendations.push(
                "未检测到任何 QR 码图案。建议:\n1. 检查图像是否包含 QR 码\n2. 尝试提高图像对比度\n3. 确保 QR 码完整可见，没有被裁剪\n4. 如果 QR 码很小，尝试放大图像".to_owned(),
            );
            proof {
                assert(recommendations@.map_values(|s: String| s@) =~= recs_spec(av));
            }
            return recommendations;
        }

        let has_dc = self.any_with_category(analyses, DiagCategory::DataCorrection);
        let has_fm = self.any_with_category(analyses, DiagCategory::FormatMetadata);
        let any_success = self.any_success(analyses);

        if has_dc {
            recommendations.push(
                "数据纠错失败 (DataEcc) 是最常见的问题。建议:\n1. QR 码可能损坏严重 - 检查是否有污渍、划痕或褪色\n2. 尝试更清晰的图像源\n3. 如果是印刷品，确保扫描分辨率足够 (至少 300 DPI)\n4. 检查 QR 码生成时使用的纠错等级 (L/M/Q/H)".to_owned(),
            );
        }
        if has_fm {
            recommendations.push(
                "格式信息错误 (FormatEcc) 表示 QR 码的元数据区域损坏。建议:\n1. 检查 QR 码三个角的定位图案周围区域\n2. 格式信息位于定位图案旁的 L 形区域\n3. 这些区域不能有任何损坏".to_owned(),
            );
        }
        if !has_dc && !has_fm && !any_success {
            recommendations.push(
                "所有引擎都检测到了 QR 码但解码失败。建议:\n1. 尝试调整图像亮度和对比度\n2. 使用 --debug 模式查看更多细节\n3. 尝试不同角度重新拍摄".to_owned(),
            );
        }
        proof {
            assert(recommendations@.map_values(|s: String| s@) =~= recs_spec(av));
        }
        recommendations
    }

    /// Whether some grid analysis carries the given category.
    fn any_with_category(&self, analyses: &Vec<EngineAnalysis>, c: DiagCategory) -> (r: bool)
        ensures
            r == has_category(analyses_of(analyses@), c),
    {
        let ghost av = analyses_of(analyses@);
        let mut i: usize = 0;
        while i < analyses.len()
            invariant
                i <= analyses@.len(),
                av == analyses_of(analyses@),
                forall|k: int, j: int|
                    0 <= k < i && 0 <= j < av[k].decode_results.len() ==> (#[trigger] av[k].decode_results[j]).category != Some(c),
            decreases analyses@.len() - i,
        {
            proof {
                assert(av[i as int] == analyses@[i as int]@);
            }
            let a = &analyses[i];
            let mut j: usize = 0;
            while j < a.decode_results.len()
                invariant
                    j <= a.decode_results@.len(),
                    av == analyses_of(analyses@),
                    0 <= i < analyses@.len(),
                    a == analyses@[i as int],
                    av[i as int] == analyses@[i as int]@,
                    forall|jj: int|
                        0 <= jj < j ==> av[i as int].decode_results[jj].category != Some(c),
                decreases a.decode_results@.len() - j,
            {
                proof {
                    assert(av[i as int].decode_results[j as int] == a.decode_results@[j as int]@);
                }
                let hit = match &a.decode_results[j].category {
                    Some(x) => *x == c,
                    None => false,
                };
                if hit {
                    proof {
                        assert(av[i as int].decode_results[j as int].category == Some(c));
                    }
                    return true;
                }
                j += 1;
            }
            i += 1;
        }
        false
    }

    /// Whether some engine analysis succeeded.
    fn any_success(&self, analyses: &Vec<EngineAnalysis>) -> (r: bool)
        ensures
            r == any_analysis_success(analyses_of(analyses@)),
    {
        let ghost av = analyses_of(analyses@);
        let mut i: usize = 0;
        while i < analyses.len()
            invariant
                i <= analyses@.len(),
                av == analyses_of(analyses@),
                forall|k: int| 0 <= k < i ==> !(#[trigger] av[k]).success,
            decreases analyses@.len() - i,
        {
            proof {
                assert(av[i as int] == analyses@[i as int]@);
            }
            if analyses[i].success {
                return true;
            }
            i += 1;
        }
        false
    }

    /// Analyze a single image, already read into memory, and produce a
    /// detailed debug report.
    ///
    /// Succeeds exactly when the bytes decode as a supported image container.
    pub fn analyze_file(&self, file_path: &str, data: &Vec<u8>) -> (r: Result<AnalysisReport, String>)
        ensures
            r is Ok <==> image_ok(data@),
            r matches Ok(rep) ==> {
                &&& rep.file_path@ == file_path@
                &&& analyze_post(working_frame_of(data@), rep)
                &&& rep.image_size.0 == gray_frame_of(data@).1
                &&& rep.image_size.1 == gray_frame_of(data@).2
                &&& rep.recommendations@.map_values(|s: String| s@) == recs_spec(
                    analyses_of(rep.engine_analyses@),
                )
                &&& rep.engine_analyses@.len() == 3
                &&& rep.overall_success == any_analysis_success(analyses_of(rep.engine_analyses@))
            },
            r matches Err(m) ==> m@.len() > 0,
    {
        let (working, image_size) = match load_working_frame(data) {
            Ok(p) => p,
            Err(e) => {
                let mut m = "Failed to decode image: ".to_owned();
                m.append(file_path);
                m.append(": ");
                m.append(e.as_str());
                proof {
                    reveal_strlit("Failed to decode image: ");
                }
                return Err(m);
            },
        };

        let variants = ImagePreprocessor::generate_variants(&working);
        let variants_tested = variants.len();
        let ghost b = working@;

        let first = &variants[0];
        proof {
            assert(first@ == gen_spec(b)[0]);
        }

        let mut engine_analyses: Vec<EngineAnalysis> = Vec::new();
        let rqrr_analysis = self.analyze_with_rqrr(first, "original");
        let quircs_analysis = self.analyze_with_quircs(first, "original");
        let rxing_analysis = self.analyze_with_rxing(first, "original");
        let overall_success = rqrr_analysis.success || quircs_analysis.success
            || rxing_analysis.success;
        engine_analyses.push(rqrr_analysis);
        engine_analyses.push(quircs_analysis);
        engine_analyses.push(rxing_analysis);

        let recommendations = self.generate_recommendations(&engine_analyses);

        let rep = AnalysisReport {
            file_path: file_path.to_owned(),
            image_size,
            variants_tested,
            engine_analyses,
            overall_success,
            recommendations,
        };
        proof {
            let a = analyses_of(rep.engine_analyses@);
            assert(a.len() == 3);
            assert(a[0] == rep.engine_analyses@[0]@);
            assert(a[1] == rep.engine_analyses@[1]@);
            assert(a[2] == rep.engine_analyses@[2]@);
            assert(rep.overall_success == any_analysis_success(a));
            assert(analyze_post(working_frame_of(data@), rep));
        }
        Ok(rep)
    }
}

proof fn lemma_ok_count_vs_any<A, B>(reads: Seq<Result<A, B>>)
    ensures
        (ok_count(reads) > 0) <==> any_ok(reads),
        ok_count(reads) >= 0,
    decreases reads.len(),
{
    if reads.len() > 0 {
        lemma_ok_count_vs_any(reads.drop_last());
        if reads.last() is Ok {
            assert(reads[reads.len() - 1] is Ok);
        } else {
            if any_ok(reads) {
                let i = choose|i: int| 0 <= i < reads.len() && reads[i] is Ok;
                assert(reads.drop_last()[i] is Ok);
            }
            if any_ok(reads.drop_last()) {
                let i = choose|i: int| 0 <= i < reads.drop_last().len() && reads.drop_last()[i] is Ok;
                assert(reads[i] is Ok);
            }
        }
    }
}


/// Law: when no engine locates any candidate region, the derived
/// recommendation set is exactly the fixed "no pattern found" hint — a
/// recommendation, not an error.
pub proof fn lemma_no_pattern_recommendation(a: Seq<EngineAnalysisV>)
    requires
        total_grids(a) == 0,
    ensures
        recs_spec(a) == seq![rec_no_pattern()],
{
}

} // verus!
