//! Header field names.

use crate::ascii::{ascii_as_str, ascii_chars};
use crate::charmap::{
    all_name_bytes, classify_name_byte, classify_name_seq, is_name_byte, is_name_table_output,
    lemma_without_nulls_of_table_output, lemma_without_nulls_push, lemma_without_nulls_shrinks,
    without_nulls,
};
use core::str::FromStr;
use vstd::prelude::*;
use vstd::std_specs::convert::TryFromSpecImpl;
use vstd::string::StringSliceAdditionalSpecFns;

verus! {

/// The error of the validating constructors of [`HeaderFieldName`]: the input
/// held a byte outside the name alphabet.
pub struct InvalidHeaderFieldName;

/// A header field name.
///
/// Built by a validating constructor it holds bytes of the name alphabet
/// only; built by a normalizing one it may also hold the placeholder `0`
/// where the input had a byte outside the alphabet.
#[derive(Debug)]
pub struct HeaderFieldName(Vec<u8>);

impl View for HeaderFieldName {
    type V = Seq<u8>;

    closed spec fn view(&self) -> Seq<u8> {
        self.0@
    }
}

impl TryFrom<&[u8]> for HeaderFieldName {
    type Error = InvalidHeaderFieldName;

    fn try_from(value: &[u8]) -> (r: Result<Self, Self::Error>)
        ensures
            r is Ok <==> all_name_bytes(value@),
            r matches Ok(name) ==> name@ == value@,
    {
        Self::from_bytes(value)
    }
}

/// A name is known to a contract by its view, so `try_from` is specified by
/// its own `ensures` and not by a spec value to be equal to.
impl TryFromSpecImpl<&[u8]> for HeaderFieldName {
    open spec fn obeys_try_from_spec() -> bool {
        false
    }

    open spec fn try_from_spec(v: &[u8]) -> Result<Self, Self::Error> {
        Err(InvalidHeaderFieldName)
    }
}

impl FromStr for HeaderFieldName {
    type Err = InvalidHeaderFieldName;

    fn from_str(s: &str) -> (r: Result<Self, Self::Err>)
        ensures
            r is Ok <==> all_name_bytes(s.spec_bytes()),
            r matches Ok(name) ==> name@ == s.spec_bytes(),
    {
        Self::from_bytes(s.as_bytes())
    }
}

impl HeaderFieldName {
    /// However the name was built, its bytes came out of the name table.
    #[verifier::type_invariant]
    spec fn holds_table_output(&self) -> bool {
        is_name_table_output(self.0@)
    }

    /// Normalizes the UTF-8 bytes of `s` into a name, as
    /// [`from_bytes_unchecked`](Self::from_bytes_unchecked) does.
    pub fn from_static(s: &'static str) -> (name: Self)
        ensures
            name@ == classify_name_seq(s.spec_bytes()),
    {
        Self::from_bytes_unchecked(s.as_bytes())
    }

    /// Validates `value` as a name: succeeds exactly when every byte is in
    /// the name alphabet, and the name then holds the bytes of `value`.
    pub fn from_bytes(value: &[u8]) -> (r: Result<Self, InvalidHeaderFieldName>)
        ensures
            r is Ok <==> all_name_bytes(value@),
            r matches Ok(name) ==> name@ == value@,
    {
        let mut o: Vec<u8> = Vec::with_capacity(value.len());
        for i in 0..value.len()
            invariant
                o@ == value@.take(i as int),
                all_name_bytes(o@),
        {
            let c = classify_name_byte(value[i]);
            if c == 0 {
                return Err(InvalidHeaderFieldName);
            }
            o.push(c);
        }
        assert(value@.take(value.len() as int) =~= value@);
        Ok(Self(o))
    }

    /// Normalizes `value` into a name of the same length: bytes of the name
    /// alphabet are kept, every other byte becomes the placeholder `0`.
    pub fn from_bytes_unchecked(value: &[u8]) -> (name: Self)
        ensures
            name@ == classify_name_seq(value@),
            name@.len() == value@.len(),
            forall|i: int|
                0 <= i < value@.len() ==> #[trigger] name@[i] == (if is_name_byte(value@[i]) {
                    value@[i]
                } else {
                    0
                }),
    {
        let mut o: Vec<u8> = Vec::with_capacity(value.len());
        for i in 0..value.len()
            invariant
                o@ == classify_name_seq(value@.take(i as int)),
        {
            o.push(classify_name_byte(value[i]));
        }
        assert(value@.take(value.len() as int) =~= value@);
        Self(o)
    }

    /// Removes every placeholder `0`, keeping the other bytes in their
    /// order. What is left is in the name alphabet.
    pub fn clean(self) -> (name: Self)
        ensures
            name@ == without_nulls(self@),
            name@.len() <= self@.len(),
            forall|i: int| 0 <= i < name@.len() ==> #[trigger] name@[i] != 0,
            all_name_bytes(name@),
    {
        proof {
            use_type_invariant(&self);
            lemma_without_nulls_shrinks(self.0@);
        }
        let mut o: Vec<u8> = Vec::with_capacity(self.0.len());
        for i in 0..self.0.len()
            invariant
                o@ == without_nulls(self.0@.take(i as int)),
        {
            let v = self.0[i];
            proof {
                lemma_without_nulls_push(self.0@.take(i as int), v);
                assert(self.0@.take(i + 1) =~= self.0@.take(i as int).push(v));
            }
            if v != 0 {
                o.push(v);
            }
        }
        proof {
            assert(self.0@.take(self.0.len() as int) =~= self.0@);
            lemma_without_nulls_of_table_output(self.0@);
        }
        Self(o)
    }

    /// Gives up the name for its bytes.
    pub fn into_inner(self) -> (bytes: Vec<u8>)
        ensures
            bytes@ == self@,
            is_name_table_output(bytes@),
    {
        proof {
            use_type_invariant(&self);
        }
        self.0
    }

    /// The bytes of the name.
    pub fn as_bytes(&self) -> (bytes: &[u8])
        ensures
            bytes@ == self@,
            is_name_table_output(bytes@),
    {
        proof {
            use_type_invariant(self);
        }
        self.0.as_slice()
    }

    /// The name as a string slice, one character for each byte.
    pub fn as_utf8_str(&self) -> (s: &str)
        ensures
            s.spec_bytes() == self@,
            s@ == ascii_chars(self@),
    {
        proof {
            use_type_invariant(self);
        }
        ascii_as_str(self.0.as_slice())
    }
}

} // verus!
