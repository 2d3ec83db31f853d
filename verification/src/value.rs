//! Header field values and their secrecy tag.

use crate::ascii::{ascii_as_str, ascii_chars};
use crate::charmap::{
    all_value_bytes, classify_value_byte, classify_value_seq, is_value_byte,
    is_value_table_output, lemma_without_nulls_of_table_output, lemma_without_nulls_push,
    lemma_without_nulls_shrinks, without_nulls,
};
use crate::std_specs::formatter_text;
use core::fmt::{Debug, Formatter};
use core::str::FromStr;
use vstd::prelude::*;
use vstd::std_specs::convert::TryFromSpecImpl;
use vstd::string::StringSliceAdditionalSpecFns;

verus! {

/// What stands for the content of a secret value in diagnostics.
pub const REDACTED: &'static str = "<REDACTED>";

/// The characters of [`REDACTED`].
pub open spec fn redaction_marker() -> Seq<char> {
    REDACTED@
}

/// The text that diagnostics show for a value: its content, one character
/// for each byte, or the redaction marker if it is secret.
pub open spec fn debug_text(secret: bool, bytes: Seq<u8>) -> Seq<char> {
    if secret {
        redaction_marker()
    } else {
        ascii_chars(bytes)
    }
}

/// The bytes of a value under their secrecy tag: one buffer, and the tag
/// is the variant that holds it.
enum ValueType {
    Visible(Vec<u8>),
    Secret(Vec<u8>),
}

impl Debug for ValueType {
    /// Writes the content of a visible value and the redaction marker for a
    /// secret one: where the write succeeds, the formatter has taken
    /// [`debug_text`] and nothing else.
    fn fmt(&self, f: &mut Formatter<'_>) -> (r: Result<(), core::fmt::Error>)
        ensures
            r is Ok ==> formatter_text(*final(f)) == formatter_text(*old(f)) + debug_text(
                self is Secret,
                self.bytes(),
            ),
    {
        f.write_str(self.debug_str())
    }
}

impl ValueType {
    /// The bytes held, whatever the tag.
    pub closed spec fn bytes(&self) -> Seq<u8> {
        match self {
            Self::Visible(b) | Self::Secret(b) => b@,
        }
    }

    /// Whatever the tag, the bytes came out of the value table.
    #[verifier::type_invariant]
    spec fn holds_table_output(&self) -> bool {
        is_value_table_output(self.bytes())
    }

    fn as_bytes(&self) -> (bytes: &[u8])
        ensures
            bytes@ == self.bytes(),
            is_value_table_output(bytes@),
    {
        proof {
            use_type_invariant(self);
        }
        match self {
            Self::Visible(b) | Self::Secret(b) => b.as_slice(),
        }
    }

    fn into_inner(self) -> (bytes: Vec<u8>)
        ensures
            bytes@ == self.bytes(),
            is_value_table_output(bytes@),
    {
        proof {
            use_type_invariant(&self);
        }
        match self {
            Self::Visible(b) | Self::Secret(b) => b,
        }
    }

    fn into_secret(self) -> (tagged: Self)
        ensures
            tagged is Secret,
            tagged.bytes() == self.bytes(),
    {
        proof {
            use_type_invariant(&self);
        }
        match self {
            Self::Visible(b) | Self::Secret(b) => Self::Secret(b),
        }
    }

    fn into_visible(self) -> (tagged: Self)
        ensures
            tagged is Visible,
            tagged.bytes() == self.bytes(),
    {
        proof {
            use_type_invariant(&self);
        }
        match self {
            Self::Visible(b) | Self::Secret(b) => Self::Visible(b),
        }
    }

    fn debug_str(&self) -> (s: &str)
        ensures
            s@ == debug_text(self is Secret, self.bytes()),
    {
        proof {
            use_type_invariant(self);
        }
        match self {
            Self::Visible(b) => ascii_as_str(b.as_slice()),
            Self::Secret(_) => REDACTED,
        }
    }
}

/// The error of the validating constructors of [`HeaderFieldValue`]: the
/// input held a byte outside the value alphabet.
pub struct InvalidHeaderFieldValue;

/// A header field value, visible or secret.
///
/// Built by a validating constructor it holds bytes of the value alphabet
/// only; built by a normalizing one it may also hold the placeholder `0`
/// where the input had a byte outside the alphabet. A secret value shows the
/// redaction marker in place of its content when it is formatted with
/// `Debug`: `HeaderFieldValue(<REDACTED>)`.
#[derive(Debug)]
pub struct HeaderFieldValue(ValueType);

impl View for HeaderFieldValue {
    type V = Seq<u8>;

    closed spec fn view(&self) -> Seq<u8> {
        self.0.bytes()
    }
}

impl TryFrom<&[u8]> for HeaderFieldValue {
    type Error = InvalidHeaderFieldValue;

    fn try_from(value: &[u8]) -> (r: Result<Self, Self::Error>)
        ensures
            r is Ok <==> all_value_bytes(value@),
            r matches Ok(v) ==> v@ == value@ && !v.is_secret(),
    {
        Self::from_bytes(value)
    }
}

/// A value is known to a contract by its view and its tag, so `try_from` is
/// specified by its own `ensures` and not by a spec value to be equal to.
impl TryFromSpecImpl<&[u8]> for HeaderFieldValue {
    open spec fn obeys_try_from_spec() -> bool {
        false
    }

    open spec fn try_from_spec(v: &[u8]) -> Result<Self, Self::Error> {
        Err(InvalidHeaderFieldValue)
    }
}

impl FromStr for HeaderFieldValue {
    type Err = InvalidHeaderFieldValue;

    fn from_str(s: &str) -> (r: Result<Self, Self::Err>)
        ensures
            r is Ok <==> all_value_bytes(s.spec_bytes()),
            r matches Ok(v) ==> v@ == s.spec_bytes() && !v.is_secret(),
    {
        Self::from_bytes(s.as_bytes())
    }
}

impl HeaderFieldValue {
    /// Whether the value is tagged secret.
    pub closed spec fn spec_is_secret(&self) -> bool {
        self.0 is Secret
    }

    /// Normalizes the UTF-8 bytes of `s` into a visible value, as
    /// [`from_bytes_unchecked`](Self::from_bytes_unchecked) does.
    pub fn from_static(s: &'static str) -> (v: Self)
        ensures
            v@ == classify_value_seq(s.spec_bytes()),
            !v.is_secret(),
    {
        Self::from_bytes_unchecked(s.as_bytes())
    }

    /// Validates `value`: succeeds exactly when every byte is in the value
    /// alphabet, and the result then is visible and holds the bytes of
    /// `value`.
    pub fn from_bytes(value: &[u8]) -> (r: Result<Self, InvalidHeaderFieldValue>)
        ensures
            r is Ok <==> all_value_bytes(value@),
            r matches Ok(v) ==> v@ == value@ && !v.is_secret(),
    {
        let mut o: Vec<u8> = Vec::with_capacity(value.len());
        for i in 0..value.len()
            invariant
                o@ == value@.take(i as int),
                all_value_bytes(o@),
        {
            let c = classify_value_byte(value[i]);
            if c == 0 {
                return Err(InvalidHeaderFieldValue);
            }
            o.push(c);
        }
        assert(value@.take(value.len() as int) =~= value@);
        Ok(Self(ValueType::Visible(o)))
    }

    /// Normalizes `value` into a visible value of the same length: bytes of
    /// the value alphabet are kept, every other byte becomes the placeholder
    /// `0`.
    pub fn from_bytes_unchecked(value: &[u8]) -> (v: Self)
        ensures
            v@ == classify_value_seq(value@),
            v@.len() == value@.len(),
            forall|i: int|
                0 <= i < value@.len() ==> #[trigger] v@[i] == (if is_value_byte(value@[i]) {
                    value@[i]
                } else {
                    0
                }),
            !v.is_secret(),
    {
        let mut o: Vec<u8> = Vec::with_capacity(value.len());
        for i in 0..value.len()
            invariant
                o@ == classify_value_seq(value@.take(i as int)),
        {
            o.push(classify_value_byte(value[i]));
        }
        assert(value@.take(value.len() as int) =~= value@);
        Self(ValueType::Visible(o))
    }

    /// The bytes of the value, whatever its tag.
    pub fn as_bytes(&self) -> (bytes: &[u8])
        ensures
            bytes@ == self@,
            is_value_table_output(bytes@),
    {
        self.0.as_bytes()
    }

    /// Removes every placeholder `0`, keeping the other bytes in their order
    /// and the secrecy tag. What is left is in the value alphabet.
    pub fn clean(self) -> (v: Self)
        ensures
            v@ == without_nulls(self@),
            v@.len() <= self@.len(),
            forall|i: int| 0 <= i < v@.len() ==> #[trigger] v@[i] != 0,
            all_value_bytes(v@),
            v.is_secret() == self.is_secret(),
    {
        let is_secret = self.is_secret();
        let inner = self.0.into_inner();
        proof {
            lemma_without_nulls_shrinks(inner@);
        }
        let mut o: Vec<u8> = Vec::with_capacity(inner.len());
        for i in 0..inner.len()
            invariant
                o@ == without_nulls(inner@.take(i as int)),
        {
            let v = inner[i];
            proof {
                lemma_without_nulls_push(inner@.take(i as int), v);
                assert(inner@.take(i + 1) =~= inner@.take(i as int).push(v));
            }
            if v != 0 {
                o.push(v);
            }
        }
        proof {
            assert(inner@.take(inner.len() as int) =~= inner@);
            lemma_without_nulls_of_table_output(inner@);
        }
        Self(
            if is_secret {
                ValueType::Secret(o)
            } else {
                ValueType::Visible(o)
            },
        )
    }

    /// Gives up the value for its bytes, whatever its tag.
    pub fn into_inner(self) -> (bytes: Vec<u8>)
        ensures
            bytes@ == self@,
            is_value_table_output(bytes@),
    {
        self.0.into_inner()
    }

    /// The same bytes, tagged secret.
    pub fn into_secret(self) -> (v: Self)
        ensures
            v@ == self@,
            v.is_secret(),
    {
        Self(self.0.into_secret())
    }

    /// Whether the value is tagged secret.
    #[verifier::when_used_as_spec(spec_is_secret)]
    pub fn is_secret(&self) -> (secret: bool)
        ensures
            secret == self.spec_is_secret(),
    {
        matches!(self.0, ValueType::Secret(_))
    }

    /// The same bytes, tagged visible.
    pub fn into_visible(self) -> (v: Self)
        ensures
            v@ == self@,
            !v.is_secret(),
    {
        Self(self.0.into_visible())
    }

    /// The value as a string slice, one character for each byte, whatever
    /// its tag.
    pub fn as_utf8_str(&self) -> (s: &str)
        ensures
            s.spec_bytes() == self@,
            s@ == ascii_chars(self@),
    {
        ascii_as_str(self.as_bytes())
    }

    /// The text that `Debug` shows for the value between `HeaderFieldValue(`
    /// and `)`: the content of a visible value, the redaction marker for a
    /// secret one.
    pub fn debug_str(&self) -> (s: &str)
        ensures
            s@ == debug_text(self.is_secret(), self@),
    {
        self.0.debug_str()
    }
}

/// `needle` stands in `hay` as a run of consecutive characters.
pub open spec fn occurs_in(needle: Seq<char>, hay: Seq<char>) -> bool {
    exists|i: int|
        0 <= i <= hay.len() - needle.len() && #[trigger] hay.subrange(i, i + needle.len())
            == needle
}

/// The text shown for a secret value is the redaction marker, whatever the
/// value holds: two secret values read alike.
pub proof fn lemma_secret_text_is_the_marker(a: Seq<u8>, b: Seq<u8>)
    ensures
        debug_text(true, a) == redaction_marker(),
        debug_text(true, a) == debug_text(true, b),
        occurs_in(redaction_marker(), debug_text(true, a)),
{
    let marker = redaction_marker();
    assert(marker.subrange(0int, 0int + marker.len()) =~= marker);
}

/// The text shown for a secret value does not hold the content of the value,
/// but for a content that is itself a run of characters of the redaction
/// marker, such as `RED`.
pub proof fn lemma_secret_text_hides_content(bytes: Seq<u8>)
    requires
        bytes.len() > 0,
        !occurs_in(ascii_chars(bytes), redaction_marker()),
    ensures
        !occurs_in(ascii_chars(bytes), debug_text(true, bytes)),
{
}

/// A content of more bytes than the redaction marker has characters is no
/// part of it.
pub proof fn lemma_long_content_is_no_part_of_marker(bytes: Seq<u8>)
    requires
        bytes.len() > redaction_marker().len(),
    ensures
        !occurs_in(ascii_chars(bytes), redaction_marker()),
{
}

/// The text shown for a visible value is its content.
pub proof fn lemma_visible_text_is_content(bytes: Seq<u8>)
    ensures
        debug_text(false, bytes) == ascii_chars(bytes),
        occurs_in(ascii_chars(bytes), debug_text(false, bytes)),
{
    let text = ascii_chars(bytes);
    assert(text.subrange(0int, 0int + text.len()) =~= text);
}

} // verus!
