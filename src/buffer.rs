//! Decoding of a zero-terminated version buffer into text.

use vstd::prelude::*;
use vstd::slice::slice_subrange;
use vstd::string::StringSliceAdditionalSpecFns;
use vstd::utf8::{decode_utf8, valid_utf8};

verus! {

/// Why a version buffer could not be read as text.
#[derive(Debug, Clone, Copy, PartialEq, Eq, Structural)]
pub enum VersionError {
    /// The buffer does not end in a zero byte, or holds a zero byte before its end.
    MalformedVersionBuffer,
    /// The bytes before the terminator are not well-formed UTF-8.
    InvalidEncoding,
}

/// True when the last byte of `b` is zero and it is the only zero byte.
pub open spec fn nul_terminated(b: Seq<u8>) -> bool {
    &&& b.len() > 0
    &&& b.last() == 0
    &&& forall|i: int| 0 <= i < b.len() - 1 ==> #[trigger] b[i] != 0
}

/// What reading `b` as a zero-terminated UTF-8 string gives: the text encoded
/// by the bytes before the terminator, or the reason it cannot be read.
pub open spec fn full_version_spec(b: Seq<u8>) -> Result<Seq<char>, VersionError> {
    if !nul_terminated(b) {
        Err(VersionError::MalformedVersionBuffer)
    } else if !valid_utf8(b.drop_last()) {
        Err(VersionError::InvalidEncoding)
    } else {
        Ok(decode_utf8(b.drop_last()))
    }
}

/// The view of a text result: the characters of the text, or the error.
pub open spec fn text_result_view(r: Result<&str, VersionError>) -> Result<Seq<char>, VersionError> {
    match r {
        Ok(s) => Ok(s@),
        Err(e) => Err(e),
    }
}

/// Relies on `std::str::from_utf8`: it succeeds exactly when the bytes are
/// well-formed UTF-8, and the text it returns borrows those same bytes.
#[verifier::external_body]
fn utf8_text(bytes: &[u8]) -> (r: Option<&str>)
    ensures
        r is Some <==> valid_utf8(bytes@),
        r matches Some(s) ==> s.spec_bytes() == bytes@,
{
    std::str::from_utf8(bytes).ok()
}

/// Index of the first zero byte of `b`, or `b.len()` if there is none.
fn first_nul(b: &[u8]) -> (r: usize)
    ensures
        r <= b@.len(),
        r < b@.len() ==> b@[r as int] == 0,
        forall|i: int| 0 <= i < r ==> #[trigger] b@[i] != 0,
{
    let mut i: usize = 0;
    while i < b.len()
        invariant
            i <= b@.len(),
            forall|j: int| 0 <= j < i ==> #[trigger] b@[j] != 0,
        decreases b@.len() - i,
    {
        if b[i] == 0 {
            return i;
        }
        i = i + 1;
    }
    i
}

/// Reads a zero-terminated buffer as UTF-8 text: the text is the buffer
/// without its terminating zero byte.
pub fn full_version_of(buf: &[u8]) -> (r: Result<&str, VersionError>)
    ensures
        text_result_view(r) == full_version_spec(buf@),
        r matches Ok(s) ==> s.spec_bytes() == buf@.drop_last(),
{
    let n = first_nul(buf);
    if n >= buf.len() || n != buf.len() - 1 {
        return Err(VersionError::MalformedVersionBuffer);
    }
    let content = slice_subrange(buf, 0, n);
    assert(content@ == buf@.drop_last());
    match utf8_text(content) {
        Some(s) => {
            proof {
                vstd::utf8::encode_utf8_decode_utf8(s@);
            }
            Ok(s)
        },
        None => Err(VersionError::InvalidEncoding),
    }
}

/// Reading the same buffer twice gives the same outcome: any two results that
/// meet the contract of `full_version_of` on one buffer are the same text, or
/// the same error.
pub proof fn full_version_repeatable(
    buf: Seq<u8>,
    r1: Result<&str, VersionError>,
    r2: Result<&str, VersionError>,
)
    requires
        text_result_view(r1) == full_version_spec(buf),
        text_result_view(r2) == full_version_spec(buf),
    ensures
        text_result_view(r1) == text_result_view(r2),
        r1 is Ok <==> r2 is Ok,
        r1 matches Ok(s1) ==> r2 matches Ok(s2) && s1@ == s2@,
{
}

} // verus!
