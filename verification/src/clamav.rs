//! Reading the answer of the virus scanner.

use crate::text::decimal;
use crate::text::decimal_text;
use vstd::prelude::*;
use vstd::string::StringExecFns;
use vstd::utf8::valid_utf8;

verus! {

/// Whether `needle` occurs in `bytes` as one unbroken run.
pub open spec fn occurs_in(needle: Seq<u8>, bytes: Seq<u8>) -> bool {
    exists|start: int|
        0 <= start && start + needle.len() <= bytes.len() && #[trigger] bytes.subrange(
            start,
            start + needle.len(),
        ) == needle
}

/// The letters `OK`.
pub open spec fn ok_mark() -> Seq<u8> {
    seq![0x4f, 0x4b]
}

/// The letters `FOUND`.
pub open spec fn found_mark() -> Seq<u8> {
    seq![0x46, 0x4f, 0x55, 0x4e, 0x44]
}

/// What the scanner's answer says of the data: clean when it holds `OK`
/// and does not hold `FOUND`; nothing when it is not UTF-8.
pub open spec fn response_verdict(response: Seq<u8>) -> Option<bool> {
    if valid_utf8(response) {
        Some(occurs_in(ok_mark(), response) && !occurs_in(found_mark(), response))
    } else {
        None
    }
}

/// `clamav_client::clean` reads the answer as UTF-8 text and fails where it
/// is none; the data is clean when the text contains `OK` and does not
/// contain `FOUND`. Both words are ASCII, so they occur in the text exactly
/// where their bytes occur in the answer.
#[verifier::external_body]
fn clean(response: &[u8]) -> (verdict: Option<bool>)
    ensures
        verdict == response_verdict(response@),
{
    match clamav_client::clean(response) {
        Ok(is_clean) => Some(is_clean),
        Err(_) => None,
    }
}

/// Why a scan gave no verdict.
#[derive(Clone, Copy, Debug, PartialEq, Eq, Structural)]
pub enum ScanError {
    /// The scanner was not reached, or broke off.
    Unreachable,
    /// The scanner's answer is not text.
    Unreadable,
}

/// What is said of a scan that gave no verdict.
pub open spec fn scan_error_text(error: ScanError) -> Seq<char> {
    match error {
        ScanError::Unreachable => "Failed to scan file with ClamAV"@,
        ScanError::Unreadable => "Failed to parse ClamAV response"@,
    }
}

impl ScanError {
    /// What is said of the failure.
    pub fn message(&self) -> (text: String)
        ensures
            text@ == scan_error_text(*self),
    {
        match self {
            ScanError::Unreachable => String::from_str("Failed to scan file with ClamAV"),
            ScanError::Unreadable => String::from_str("Failed to parse ClamAV response"),
        }
    }
}

/// The verdict of a scan whose answer was `response`, or `None` where the
/// scanner gave no answer.
pub open spec fn verdict_of(response: Option<Seq<u8>>) -> Result<bool, ScanError> {
    match response {
        None => Err(ScanError::Unreachable),
        Some(bytes) => match response_verdict(bytes) {
            Some(is_clean) => Ok(is_clean),
            None => Err(ScanError::Unreadable),
        },
    }
}

/// The view of an optional answer.
pub open spec fn optional_bytes(bytes: Option<Vec<u8>>) -> Option<Seq<u8>> {
    match bytes {
        Some(b) => Some(b@),
        None => None,
    }
}

/// Reads the scanner's answer: whether the data is clean, or why that is
/// not known.
pub fn scan_verdict(response: &Option<Vec<u8>>) -> (verdict: Result<bool, ScanError>)
    ensures
        verdict == verdict_of(optional_bytes(*response)),
{
    match response {
        None => Err(ScanError::Unreachable),
        Some(bytes) => match clean(bytes.as_slice()) {
            Some(is_clean) => Ok(is_clean),
            None => Err(ScanError::Unreadable),
        },
    }
}

/// The address of the scanner: host, colon, port.
pub open spec fn address_text(host: Seq<char>, port: u16) -> Seq<char> {
    host + ":"@ + decimal(port as nat)
}

/// Writes the address of the scanner.
pub fn scan_address(host: &str, port: u16) -> (address: String)
    ensures
        address@ == address_text(host@, port),
{
    let mut address = String::from_str(host);
    address.append(":");
    let digits = decimal_text(port as u64);
    address.append(digits.as_str());
    address
}

/// An answer that names something found is never clean, and an answer
/// without `OK` is not clean either.
pub proof fn law_found_is_never_clean(response: Seq<u8>)
    requires
        occurs_in(found_mark(), response) || !occurs_in(ok_mark(), response),
    ensures
        response_verdict(response) != Some(true),
        verdict_of(Some(response)) != Ok::<bool, ScanError>(true),
{
}

} // verus!
