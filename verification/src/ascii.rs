//! ASCII byte strings read as text.

use vstd::prelude::*;
use vstd::string::StringSliceAdditionalSpecFns;
use vstd::utf8::{
    decode_utf8, encode_utf8, encode_utf8_decode_utf8, encode_utf8_valid_utf8, is_ascii_chars,
    is_ascii_chars_encode_utf8, valid_utf8,
};

verus! {

/// Every byte of `s` is below `0x80`.
pub open spec fn is_ascii_bytes(s: Seq<u8>) -> bool {
    forall|i: int| 0 <= i < s.len() ==> #[trigger] s[i] < 0x80
}

/// The characters that the ASCII bytes `s` spell, one for each byte.
pub open spec fn ascii_chars(s: Seq<u8>) -> Seq<char> {
    Seq::new(s.len(), |i: int| s[i] as char)
}

/// ASCII bytes are well-formed UTF-8 and encode one character for each byte.
pub proof fn lemma_ascii_bytes_are_utf8(s: Seq<u8>)
    requires
        is_ascii_bytes(s),
    ensures
        valid_utf8(s),
        is_ascii_chars(ascii_chars(s)),
        encode_utf8(ascii_chars(s)) == s,
        decode_utf8(s) == ascii_chars(s),
{
    let chars = ascii_chars(s);
    assert(is_ascii_chars(chars));
    is_ascii_chars_encode_utf8(chars);
    assert(encode_utf8(chars) =~= s);
    encode_utf8_valid_utf8(chars);
    encode_utf8_decode_utf8(chars);
}

/// Borrows ASCII bytes as a string slice.
pub(crate) fn ascii_as_str(bytes: &[u8]) -> (s: &str)
    requires
        is_ascii_bytes(bytes@),
    ensures
        s.spec_bytes() == bytes@,
        s@ == ascii_chars(bytes@),
{
    proof {
        lemma_ascii_bytes_are_utf8(bytes@);
    }
    match core::str::from_utf8(bytes) {
        Ok(s) => {
            proof {
                encode_utf8_decode_utf8(s@);
            }
            s
        },
        Err(_) => vstd::pervasive::unreached(),
    }
}

} // verus!
