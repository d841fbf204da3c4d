//! Turning raw terminal output into text.

use vstd::prelude::*;
use vstd::utf8::{decode_utf8, valid_utf8};

verus! {

/// The text that lossy UTF-8 decoding makes of `bytes`: well-formed sequences
/// decode to their characters, and every malformed sequence is replaced by
/// U+FFFD. The replacement rule is the standard library's and is not restated
/// here; only the value on well-formed input is fixed, by `decode_lossy`.
pub uninterp spec fn lossy_utf8(bytes: Seq<u8>) -> Seq<char>;

/// Calls `String::from_utf8_lossy` and takes ownership of what it returns.
///
/// Trusted: the result is a function of the bytes alone, named `lossy_utf8`,
/// and on well-formed UTF-8 it is the decoded text unchanged. The call never
/// fails.
#[verifier::external_body]
pub(crate) fn decode_lossy(bytes: &[u8]) -> (text: String)
    ensures
        text@ == lossy_utf8(bytes@),
        valid_utf8(bytes@) ==> text@ == decode_utf8(bytes@),
{
    String::from_utf8_lossy(bytes).into_owned()
}

} // verus!
