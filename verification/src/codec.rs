//! Trusted boundary around the outside encoders this crate leans on:
//! standard-alphabet base64 from the `base64` crate, and lossy UTF-8
//! decoding from `std`.

use vstd::prelude::*;
use vstd::utf8::decode_utf8;
use vstd::utf8::valid_utf8;

verus! {

/// The standard base64 text (alphabet `A-Z a-z 0-9 + /`, `=` padding) of a
/// byte sequence. Left uninterpreted: it stands for whatever
/// `base64::encode_config` with `base64::STANDARD` produces, which depends on
/// the input bytes alone.
pub uninterp spec fn b64_encode_of(bytes: Seq<u8>) -> Seq<char>;

/// The result of standard base64 decoding: `Some(bytes)` when the text is
/// valid base64 under the standard alphabet, `None` otherwise. Left
/// uninterpreted: it stands for whatever `base64::decode_config` with
/// `base64::STANDARD` returns, which depends on the input text alone.
pub uninterp spec fn b64_decode_of(text: Seq<char>) -> Option<Seq<u8>>;

/// The lossy UTF-8 reading of a byte sequence: invalid sequences become
/// `U+FFFD`. Left uninterpreted except on valid UTF-8, where it agrees with
/// `decode_utf8` (see `utf8_lossy`).
pub uninterp spec fn lossy_of(bytes: Seq<u8>) -> Seq<char>;

/// Relies on `base64::encode_config` with `base64::STANDARD`: the result is
/// the standard base64 text of the input bytes, of length `4 * ceil(n / 3)`
/// (padded). Its panics are unreachable: the length arithmetic cannot
/// overflow because a slice holds at most `isize::MAX` bytes, and its final
/// UTF-8 re-check cannot fail because the output it builds is ASCII.
#[verifier::external_body]
pub(crate) fn b64_encode(bytes: &[u8]) -> (r: String)
    ensures
        r@ == b64_encode_of(bytes@),
        r@.len() == ((bytes@.len() + 2) / 3) * 4,
{
    base64::encode_config(bytes, base64::STANDARD)
}

/// Relies on `base64::decode_config` with `base64::STANDARD`: it returns the
/// decoded bytes exactly when the text is valid standard base64, and in
/// particular it inverts `base64::encode_config` on every byte sequence. The
/// only panic in its source is an overflow adding 3 to the input length,
/// unreachable here because a `str` holds at most `isize::MAX` bytes.
#[verifier::external_body]
pub(crate) fn b64_decode(text: &str) -> (r: Option<Vec<u8>>)
    ensures
        r is Some <==> b64_decode_of(text@) is Some,
        r matches Some(v) ==> b64_decode_of(text@) == Some(v@),
        r is None ==> (forall|b: Seq<u8>| text@ != #[trigger] b64_encode_of(b)),
        r matches Some(v) ==> (forall|b: Seq<u8>|
            text@ == #[trigger] b64_encode_of(b) ==> v@ == b),
{
    base64::decode_config(text, base64::STANDARD).ok()
}

/// Relies on `String::from_utf8_lossy`: invalid UTF-8 sequences are replaced
/// with `U+FFFD`, and valid UTF-8 input comes back as the string it encodes,
/// so on valid input the result is `decode_utf8` of the bytes.
#[verifier::external_body]
pub(crate) fn utf8_lossy(bytes: &[u8]) -> (r: String)
    ensures
        r@ == lossy_of(bytes@),
        valid_utf8(bytes@) ==> r@ == decode_utf8(bytes@),
{
    String::from_utf8_lossy(bytes).into_owned()
}

} // verus!
