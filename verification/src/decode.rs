use vstd::prelude::*;

verus! {

/// The text that lossy UTF-8 decoding yields for a given byte sequence.
pub uninterp spec fn lossy_decode(bytes: Seq<u8>) -> Seq<char>;

/// Whether every byte is plain ASCII.
pub open spec fn all_ascii(bytes: Seq<u8>) -> bool {
    forall|i: int| 0 <= i < bytes.len() ==> bytes[i] < 128
}

/// The byte sequence read as characters, one per byte.
pub open spec fn ascii_text(bytes: Seq<u8>) -> Seq<char> {
    bytes.map_values(|b: u8| b as char)
}

/// Relies on alloc's `String::from_utf8_lossy`: the result is a function of
/// the bytes alone, and bytes that are valid UTF-8 (in particular, pure
/// ASCII) decode to themselves.
#[verifier::external_body]
pub(crate) fn decode_lossy(bytes: &Vec<u8>) -> (r: String)
    ensures
        r@ == lossy_decode(bytes@),
        all_ascii(bytes@) ==> r@ == ascii_text(bytes@),
{
    String::from_utf8_lossy(bytes).into_owned()
}

} // verus!
