//! From bytes on the wire to text for display.

use vstd::prelude::*;
use vstd::utf8::{
    decode_utf8, encode_utf8, encode_utf8_decode_utf8, encode_utf8_valid_utf8,
    is_ascii_chars_encode_utf8, valid_utf8,
};

verus! {

/// The text that lossy UTF-8 decoding makes of `bytes`: well-formed
/// sequences decode to their characters, and each ill-formed one becomes
/// U+FFFD.
pub uninterp spec fn utf8_lossy(bytes: Seq<u8>) -> Seq<char>;

/// Decodes with `String::from_utf8_lossy`. Trusted: the result depends on
/// the bytes alone, and bytes that are valid UTF-8 decode to the characters
/// that they encode.
#[verifier::external_body]
pub(crate) fn decode_lossy(bytes: &[u8]) -> (text: String)
    ensures
        text@ == utf8_lossy(bytes@),
        valid_utf8(bytes@) ==> text@ == decode_utf8(bytes@),
{
    String::from_utf8_lossy(bytes).into_owned()
}

/// The text of `bytes`: the characters that they encode where they are
/// valid UTF-8, and what lossy decoding makes of them where they are not.
pub open spec fn text_of(bytes: Seq<u8>) -> Seq<char> {
    if valid_utf8(bytes) {
        decode_utf8(bytes)
    } else {
        utf8_lossy(bytes)
    }
}

/// Each byte as the character of the same number.
pub open spec fn ascii(bytes: Seq<u8>) -> Seq<char> {
    Seq::new(bytes.len(), |i: int| bytes[i] as char)
}

/// Bytes below 128 are valid UTF-8, and their text is the characters of
/// the same numbers.
pub proof fn lemma_text_of_ascii(bytes: Seq<u8>)
    requires
        forall|i: int| 0 <= i < bytes.len() ==> #[trigger] bytes[i] < 128,
    ensures
        valid_utf8(bytes),
        text_of(bytes) == ascii(bytes),
{
    let chars = ascii(bytes);
    is_ascii_chars_encode_utf8(chars);
    assert(encode_utf8(chars) =~= bytes);
    encode_utf8_valid_utf8(chars);
    encode_utf8_decode_utf8(chars);
}

/// Turns bytes into text.
pub fn decode(bytes: &[u8]) -> (text: String)
    ensures
        text@ == text_of(bytes@),
{
    decode_lossy(bytes)
}

} // verus!
