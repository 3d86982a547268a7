use vstd::prelude::*;

use crate::code::{is_valid_code, lemma_valid_code_is_seven_digits, spec_is_valid_code};
use crate::frame::{FRAME_HEIGHT, FRAME_WIDTH, LUMA_LEN};

verus! {

/// The text of the QR code that rxing's `detect_in_luma` finds in an
/// 8-bit luma image of `width` × `height` pixels (restricted to the QR
/// format), or `None` when it finds none.
pub uninterp spec fn qr_text_in_luma(luma: Seq<u8>, width: u32, height: u32) -> Option<Seq<char>>;

/// The character sequence of an optional string.
pub open spec fn spec_opt_text(s: Option<String>) -> Option<Seq<char>> {
    match s {
        Some(t) => Some(t@),
        None => None,
    }
}

/// Calls `rxing::helpers::detect_in_luma` with the QR format only and
/// returns the decoded text, or `None` on any decoding error. Claimed: the
/// result is `qr_text_in_luma` of the arguments, and — as the crate's
/// source checks before decoding — it is `None` when a dimension is zero or
/// the buffer does not hold exactly `width * height` bytes. Nothing is
/// claimed about which images hold a readable code.
#[verifier::external_body]
fn detect_qr_in_luma(luma: Vec<u8>, width: u32, height: u32) -> (text: Option<String>)
    ensures
        spec_opt_text(text) == qr_text_in_luma(luma@, width, height),
        (width == 0 || height == 0 || luma@.len() != width as int * height as int) ==> text is None,
{
    match rxing::helpers::detect_in_luma(luma, width, height, Some(rxing::BarcodeFormat::QR_CODE)) {
        Ok(found) => Some(found.getText().to_string()),
        Err(_) => None,
    }
}

/// A QR code read from the camera.
pub struct QrScan {
    /// The decoded text, shown on the display.
    pub text: String,
    /// Whether the text is an unlock code (green, and the unlock command is
    /// sent) or not (red).
    pub valid: bool,
}

/// The abstract value of an optional scan: (text, valid).
pub open spec fn spec_scan_view(s: Option<QrScan>) -> Option<(Seq<char>, bool)> {
    match s {
        Some(q) => Some((q.text@, q.valid)),
        None => None,
    }
}

/// What a decoding result means: no code, or a code with its text and
/// whether it is an unlock code.
pub open spec fn spec_classify(decoded: Option<Seq<char>>) -> Option<(Seq<char>, bool)> {
    match decoded {
        Some(t) => Some((t, spec_is_valid_code(t))),
        None => None,
    }
}

/// Judges the result of a QR decoding attempt.
pub fn classify_scan(decoded: Option<String>) -> (scan: Option<QrScan>)
    ensures
        spec_scan_view(scan) == spec_classify(spec_opt_text(decoded)),
        decoded is None <==> scan is None,
        scan matches Some(q) ==> decoded matches Some(t) && q.text@ == t@,
        scan matches Some(q) ==> (q.valid <==> (q.text@.len() == 7 && forall|i: int|
            0 <= i < q.text@.len() ==> '0' <= #[trigger] q.text@[i] && q.text@[i] <= '9')),
{
    proof {
        if decoded is Some {
            lemma_classify_judges_seven_digits(decoded->0@);
        }
    }
    match decoded {
        Some(text) => {
            let valid = is_valid_code(text.as_str());
            Some(QrScan { text, valid })
        },
        None => None,
    }
}

/// Tries to read a QR code from one luma frame of the camera
/// (`FRAME_WIDTH` × `FRAME_HEIGHT`) and judges its text.
pub fn scan_luma(gray: &Vec<u8>) -> (scan: Option<QrScan>)
    ensures
        spec_scan_view(scan) == spec_classify(qr_text_in_luma(gray@, FRAME_WIDTH, FRAME_HEIGHT)),
        gray@.len() != LUMA_LEN ==> scan is None,
        scan matches Some(q) ==> (q.valid <==> (q.text@.len() == 7 && forall|i: int|
            0 <= i < q.text@.len() ==> '0' <= #[trigger] q.text@[i] && q.text@[i] <= '9')),
{
    let decoded = detect_qr_in_luma(gray.clone(), FRAME_WIDTH, FRAME_HEIGHT);
    proof {
        if decoded is Some {
            lemma_classify_judges_seven_digits(decoded->0@);
        }
    }
    classify_scan(decoded)
}

} // verus!

verus! {

/// A decoded text is kept as it is and judged an unlock code exactly when
/// it has seven characters, each one of '0'..='9'.
pub proof fn lemma_classify_judges_seven_digits(t: Seq<char>)
    ensures
        spec_classify(Some(t)) matches Some((text, valid)) && text == t && (valid <==> (t.len() == 7
            && forall|i: int| 0 <= i < t.len() ==> '0' <= #[trigger] t[i] && t[i] <= '9')),
        spec_classify(None) is None,
{
    lemma_valid_code_is_seven_digits(t);
}

} // verus!
