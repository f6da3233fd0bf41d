//! Texts as the host takes them: by the bytes of their UTF-8 encoding, and
//! the length of their serialized form.
use vstd::prelude::*;
use vstd::utf8::{encode_scalar, encode_utf8};

verus! {

/// The number of bytes of the UTF-8 encoding of a text.
pub open spec fn byte_len(text: Seq<char>) -> nat {
    encode_utf8(text).len()
}

/// The number of bytes of a text in its serialized form: eight bytes of
/// framing, then the bytes of its UTF-8 encoding, filled up to a multiple of
/// four.
pub open spec fn xdr_len(text: Seq<char>) -> nat {
    8 + 4 * ((byte_len(text) + 3) / 4)
}

/// A text has at least one byte and at most four for each of its characters.
pub proof fn lemma_byte_len_bounds(text: Seq<char>)
    ensures
        text.len() <= byte_len(text) <= 4 * text.len(),
    decreases text.len(),
{
    if text.len() > 0 {
        let first = encode_scalar(text[0] as u32);
        assert(1 <= first.len() <= 4);
        lemma_byte_len_bounds(text.drop_first());
        assert(encode_utf8(text) == first + encode_utf8(text.drop_first()));
    }
}

/// The serialized form of a text has at least eight bytes, at least twelve if
/// the text is not empty, a multiple of four in any case, and fewer than four
/// bytes of filling.
pub proof fn lemma_xdr_len_bounds(text: Seq<char>)
    ensures
        xdr_len(text) >= 8,
        text.len() > 0 ==> xdr_len(text) >= 12,
        text.len() == 0 ==> xdr_len(text) == 8,
        xdr_len(text) % 4 == 0,
        byte_len(text) + 8 <= xdr_len(text) <= byte_len(text) + 11,
{
    lemma_byte_len_bounds(text);
}

} // verus!
