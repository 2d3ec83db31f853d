//! Byte classification tables and the alphabets they encode.

use vstd::prelude::*;

verus! {

/// Classification table for header field names, sixteen entries to a row.
/// Entry `b` is `b` itself when `b` may appear in a name and `0` when it may
/// not.
pub const HEADER_FIELD_NAME_CHARACTER_MAP: [u8; 256] = [
       0,    0,    0,    0,    0,    0,    0,    0,    0,    0,    0,    0,    0,    0,    0,    0,
       0,    0,    0,    0,    0,    0,    0,    0,    0,    0,    0,    0,    0,    0,    0,    0,
       0,    0,    0,    0,    0,    0,    0,    0,    0,    0,    0,    0,    0, 0x2d,    0,    0,
    0x30, 0x31, 0x32, 0x33, 0x34, 0x35, 0x36, 0x37, 0x38, 0x39,    0,    0,    0,    0,    0,    0,
       0, 0x41, 0x42, 0x43, 0x44, 0x45, 0x46, 0x47, 0x48, 0x49, 0x4a, 0x4b, 0x4c, 0x4d, 0x4e, 0x4f,
    0x50, 0x51, 0x52, 0x53, 0x54, 0x55, 0x56, 0x57, 0x58, 0x59, 0x5a,    0,    0,    0,    0, 0x5f,
       0, 0x61, 0x62, 0x63, 0x64, 0x65, 0x66, 0x67, 0x68, 0x69, 0x6a, 0x6b, 0x6c, 0x6d, 0x6e, 0x6f,
    0x70, 0x71, 0x72, 0x73, 0x74, 0x75, 0x76, 0x77, 0x78, 0x79, 0x7a,    0,    0,    0,    0,    0,
       0,    0,    0,    0,    0,    0,    0,    0,    0,    0,    0,    0,    0,    0,    0,    0,
       0,    0,    0,    0,    0,    0,    0,    0,    0,    0,    0,    0,    0,    0,    0,    0,
       0,    0,    0,    0,    0,    0,    0,    0,    0,    0,    0,    0,    0,    0,    0,    0,
       0,    0,    0,    0,    0,    0,    0,    0,    0,    0,    0,    0,    0,    0,    0,    0,
       0,    0,    0,    0,    0,    0,    0,    0,    0,    0,    0,    0,    0,    0,    0,    0,
       0,    0,    0,    0,    0,    0,    0,    0,    0,    0,    0,    0,    0,    0,    0,    0,
       0,    0,    0,    0,    0,    0,    0,    0,    0,    0,    0,    0,    0,    0,    0,    0,
       0,    0,    0,    0,    0,    0,    0,    0,    0,    0,    0,    0,    0,    0,    0,    0,
];

/// Classification table for header field values, sixteen entries to a row.
/// Entry `b` is `b` itself when `b` may appear in a value and `0` when it may
/// not.
pub const HEADER_FIELD_VALUE_CHARACTER_MAP: [u8; 256] = [
       0,    0,    0,    0,    0,    0,    0,    0,    0, 0x09,    0,    0,    0,    0,    0,    0,
       0,    0,    0,    0,    0,    0,    0,    0,    0,    0,    0,    0,    0,    0,    0,    0,
    0x20, 0x21, 0x22, 0x23, 0x24, 0x25, 0x26, 0x27, 0x28, 0x29, 0x2a, 0x2b, 0x2c, 0x2d, 0x2e, 0x2f,
    0x30, 0x31, 0x32, 0x33, 0x34, 0x35, 0x36, 0x37, 0x38, 0x39, 0x3a, 0x3b, 0x3c, 0x3d, 0x3e, 0x3f,
    0x40, 0x41, 0x42, 0x43, 0x44, 0x45, 0x46, 0x47, 0x48, 0x49, 0x4a, 0x4b, 0x4c, 0x4d, 0x4e, 0x4f,
    0x50, 0x51, 0x52, 0x53, 0x54, 0x55, 0x56, 0x57, 0x58, 0x59, 0x5a, 0x5b, 0x5c, 0x5d, 0x5e, 0x5f,
    0x60, 0x61, 0x62, 0x63, 0x64, 0x65, 0x66, 0x67, 0x68, 0x69, 0x6a, 0x6b, 0x6c, 0x6d, 0x6e, 0x6f,
    0x70, 0x71, 0x72, 0x73, 0x74, 0x75, 0x76, 0x77, 0x78, 0x79, 0x7a, 0x7b, 0x7c, 0x7d, 0x7e,    0,
       0,    0,    0,    0,    0,    0,    0,    0,    0,    0,    0,    0,    0,    0,    0,    0,
       0,    0,    0,    0,    0,    0,    0,    0,    0,    0,    0,    0,    0,    0,    0,    0,
       0,    0,    0,    0,    0,    0,    0,    0,    0,    0,    0,    0,    0,    0,    0,    0,
       0,    0,    0,    0,    0,    0,    0,    0,    0,    0,    0,    0,    0,    0,    0,    0,
       0,    0,    0,    0,    0,    0,    0,    0,    0,    0,    0,    0,    0,    0,    0,    0,
       0,    0,    0,    0,    0,    0,    0,    0,    0,    0,    0,    0,    0,    0,    0,    0,
       0,    0,    0,    0,    0,    0,    0,    0,    0,    0,    0,    0,    0,    0,    0,    0,
       0,    0,    0,    0,    0,    0,    0,    0,    0,    0,    0,    0,    0,    0,    0,    0,
];

/// The alphabet of header field names: `A`-`Z`, `a`-`z`, `0`-`9`, `-` and `_`.
pub open spec fn is_name_byte(b: u8) -> bool {
    ||| 0x41 <= b <= 0x5a
    ||| 0x61 <= b <= 0x7a
    ||| 0x30 <= b <= 0x39
    ||| b == 0x2d
    ||| b == 0x5f
}

/// The alphabet of header field values: horizontal tab, and space through `~`.
pub open spec fn is_value_byte(b: u8) -> bool {
    b == 0x09 || 0x20 <= b <= 0x7e
}

/// What the name table holds for `b`: `b` if it is in the alphabet, else `0`.
pub open spec fn classify_name(b: u8) -> u8 {
    if is_name_byte(b) {
        b
    } else {
        0
    }
}

/// What the value table holds for `b`: `b` if it is in the alphabet, else `0`.
pub open spec fn classify_value(b: u8) -> u8 {
    if is_value_byte(b) {
        b
    } else {
        0
    }
}

/// Looks `b` up in the name table.
pub fn classify_name_byte(b: u8) -> (c: u8)
    ensures
        c == classify_name(b),
        c != 0 <==> is_name_byte(b),
{
    HEADER_FIELD_NAME_CHARACTER_MAP[b as usize]
}

/// Looks `b` up in the value table.
pub fn classify_value_byte(b: u8) -> (c: u8)
    ensures
        c == classify_value(b),
        c != 0 <==> is_value_byte(b),
{
    HEADER_FIELD_VALUE_CHARACTER_MAP[b as usize]
}

/// Every byte of `s` is in the name alphabet.
pub open spec fn all_name_bytes(s: Seq<u8>) -> bool {
    forall|i: int| 0 <= i < s.len() ==> is_name_byte(#[trigger] s[i])
}

/// Every byte of `s` is in the value alphabet.
pub open spec fn all_value_bytes(s: Seq<u8>) -> bool {
    forall|i: int| 0 <= i < s.len() ==> is_value_byte(#[trigger] s[i])
}

/// `s` with every byte replaced by its entry in the name table.
pub open spec fn classify_name_seq(s: Seq<u8>) -> Seq<u8> {
    Seq::new(s.len(), |i: int| classify_name(s[i]))
}

/// `s` with every byte replaced by its entry in the value table.
pub open spec fn classify_value_seq(s: Seq<u8>) -> Seq<u8> {
    Seq::new(s.len(), |i: int| classify_value(s[i]))
}

/// Every byte of `s` is an entry of the name table: a name byte or the
/// placeholder `0`.
pub open spec fn is_name_table_output(s: Seq<u8>) -> bool {
    forall|i: int| 0 <= i < s.len() ==> #[trigger] s[i] == 0 || is_name_byte(s[i])
}

/// Every byte of `s` is an entry of the value table: a value byte or the
/// placeholder `0`.
pub open spec fn is_value_table_output(s: Seq<u8>) -> bool {
    forall|i: int| 0 <= i < s.len() ==> #[trigger] s[i] == 0 || is_value_byte(s[i])
}

/// `s` without its `0` bytes, the others in their order.
pub open spec fn without_nulls(s: Seq<u8>) -> Seq<u8> {
    s.filter(|b: u8| b != 0)
}

/// The two tables hold, for every byte, what the alphabets say.
pub proof fn lemma_tables_hold_the_alphabets()
    ensures
        forall|b: u8| #[trigger]
            HEADER_FIELD_NAME_CHARACTER_MAP[b as int] == classify_name(b),
        forall|b: u8| #[trigger]
            HEADER_FIELD_VALUE_CHARACTER_MAP[b as int] == classify_value(b),
{
}

/// Classifying keeps the length, yields table output, and changes nothing
/// when done again.
pub proof fn lemma_classify_seq_is_table_output(s: Seq<u8>)
    ensures
        classify_name_seq(s).len() == s.len(),
        classify_value_seq(s).len() == s.len(),
        is_name_table_output(classify_name_seq(s)),
        is_value_table_output(classify_value_seq(s)),
        classify_name_seq(classify_name_seq(s)) == classify_name_seq(s),
        classify_value_seq(classify_value_seq(s)) == classify_value_seq(s),
{
    assert(classify_name_seq(classify_name_seq(s)) =~= classify_name_seq(s));
    assert(classify_value_seq(classify_value_seq(s)) =~= classify_value_seq(s));
}

/// A sequence is of an alphabet exactly when classifying it changes nothing
/// and it holds no placeholder.
pub proof fn lemma_classify_seq_of_alphabet(s: Seq<u8>)
    ensures
        all_name_bytes(s) <==> classify_name_seq(s) == s && without_nulls(s) == s,
        all_value_bytes(s) <==> classify_value_seq(s) == s && without_nulls(s) == s,
{
    if all_name_bytes(s) {
        assert(classify_name_seq(s) =~= s);
        lemma_without_nulls_of_no_nulls(s);
    }
    if all_value_bytes(s) {
        assert(classify_value_seq(s) =~= s);
        lemma_without_nulls_of_no_nulls(s);
    }
    if without_nulls(s) == s {
        lemma_without_nulls_shrinks(s);
        if classify_name_seq(s) == s {
            assert forall|i: int| 0 <= i < s.len() implies is_name_byte(#[trigger] s[i]) by {
                assert(classify_name_seq(s)[i] == classify_name(s[i]));
            }
        }
        if classify_value_seq(s) == s {
            assert forall|i: int| 0 <= i < s.len() implies is_value_byte(#[trigger] s[i]) by {
                assert(classify_value_seq(s)[i] == classify_value(s[i]));
            }
        }
    }
}

/// Appending a byte to `s` appends it to `without_nulls(s)` unless it is `0`.
pub proof fn lemma_without_nulls_push(s: Seq<u8>, b: u8)
    ensures
        without_nulls(s.push(b)) == if b != 0 {
            without_nulls(s).push(b)
        } else {
            without_nulls(s)
        },
{
    reveal(Seq::filter);
    assert(s.push(b).drop_last() =~= s);
}

/// Removing the placeholders never lengthens a sequence and leaves no `0`
/// behind.
pub proof fn lemma_without_nulls_shrinks(s: Seq<u8>)
    ensures
        without_nulls(s).len() <= s.len(),
        forall|i: int| 0 <= i < without_nulls(s).len() ==> #[trigger] without_nulls(s)[i] != 0,
{
    broadcast use vstd::seq_lib::group_filter_ensures;

}

/// A sequence that holds no `0` is left as it is.
pub proof fn lemma_without_nulls_of_no_nulls(s: Seq<u8>)
    requires
        forall|i: int| 0 <= i < s.len() ==> #[trigger] s[i] != 0,
    ensures
        without_nulls(s) == s,
    decreases s.len(),
{
    if s.len() == 0 {
        reveal(Seq::filter);
    } else {
        lemma_without_nulls_of_no_nulls(s.drop_last());
        lemma_without_nulls_push(s.drop_last(), s.last());
        assert(s.drop_last().push(s.last()) =~= s);
    }
}

/// Removing the placeholders twice is removing them once.
pub proof fn lemma_without_nulls_idempotent(s: Seq<u8>)
    ensures
        without_nulls(without_nulls(s)) == without_nulls(s),
{
    lemma_without_nulls_shrinks(s);
    lemma_without_nulls_of_no_nulls(without_nulls(s));
}

/// Table output without its placeholders is of the alphabet of its table.
pub proof fn lemma_without_nulls_of_table_output(s: Seq<u8>)
    ensures
        is_name_table_output(s) ==> all_name_bytes(without_nulls(s)),
        is_value_table_output(s) ==> all_value_bytes(without_nulls(s)),
    decreases s.len(),
{
    if s.len() == 0 {
        reveal(Seq::filter);
    } else {
        let front = s.drop_last();
        lemma_without_nulls_of_table_output(front);
        lemma_without_nulls_push(front, s.last());
        assert(front.push(s.last()) =~= s);
        if is_name_table_output(s) {
            assert forall|i: int| 0 <= i < front.len() implies #[trigger] front[i] == 0
                || is_name_byte(front[i]) by {
                assert(front[i] == s[i]);
            }
        }
        if is_value_table_output(s) {
            assert forall|i: int| 0 <= i < front.len() implies #[trigger] front[i] == 0
                || is_value_byte(front[i]) by {
                assert(front[i] == s[i]);
            }
        }
    }
}

} // verus!
