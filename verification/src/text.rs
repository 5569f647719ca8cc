//! The calls into the Unicode machinery that the grid relies on.

use vstd::prelude::*;
use vstd::utf8::*;

verus! {

/// Calls `char::encode_utf8`. The bytes it hands back are the UTF-8
/// encoding of `c`.
#[verifier::external_body]
pub(crate) fn encode_char(c: char) -> (bytes: Vec<u8>)
    ensures
        bytes@ == encode_scalar(c as u32),
{
    let mut buf = [0u8;4];
    c.encode_utf8(&mut buf).as_bytes().to_vec()
}

/// Calls `std::str::from_utf8`. It succeeds exactly on well-formed UTF-8,
/// and the string it gives then consists of the characters those bytes
/// encode.
#[verifier::external_body]
pub(crate) fn str_from_utf8(bytes: &[u8]) -> (text: Option<&str>)
    ensures
        text.is_some() == valid_utf8(bytes@),
        text matches Some(s) ==> s@ == decode_utf8(bytes@),
{
    match std::str::from_utf8(bytes) {
        Ok(s) => Some(s),
        Err(_) => None,
    }
}

/// The extended grapheme clusters of `text`, in order, as the Unicode text
/// segmentation rules delimit them.
pub uninterp spec fn grapheme_clusters(text: Seq<char>) -> Seq<Seq<char>>;

/// Calls `unicode_segmentation::UnicodeSegmentation::grapheme_indices` for
/// extended clusters and keeps the substrings: the result is the sequence of
/// grapheme clusters of `text`.
#[verifier::external_body]
pub(crate) fn graphemes(text: &str) -> (parts: Vec<&str>)
    ensures
        parts@.len() == grapheme_clusters(text@).len(),
        forall|i: int| 0 <= i < parts@.len() ==> parts@[i]@ == grapheme_clusters(text@)[i],
{
    unicode_segmentation::UnicodeSegmentation::grapheme_indices(text, true).map(|(_, sub)| sub).collect()
}

} // verus!
