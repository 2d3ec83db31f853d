//! What the library takes on trust of `core`: the types and functions that
//! it calls and for which vstd has no specification.

use core::fmt::Formatter;
use vstd::prelude::*;
use vstd::string::StringSliceAdditionalSpecFns;
use vstd::utf8::valid_utf8;

verus! {

/// `core::str::Utf8Error`, of which nothing is read.
#[verifier::external_type_specification]
#[verifier::external_body]
pub struct ExUtf8Error(core::str::Utf8Error);

/// `core::str::from_utf8` returns `Ok` exactly when the bytes are well-formed
/// UTF-8, and the string slice that it then returns is made of those same
/// bytes.
pub assume_specification[ core::str::from_utf8 ](v: &[u8]) -> (r: Result<
    &str,
    core::str::Utf8Error,
>)
    ensures
        r is Ok <==> valid_utf8(v@),
        r matches Ok(s) ==> s.spec_bytes() == v@,
;

/// `core::fmt::Formatter`, of which nothing is read.
#[verifier::external_type_specification]
#[verifier::external_body]
pub struct ExFormatter<'a>(Formatter<'a>);

/// `core::fmt::Error`, of which nothing is read.
#[verifier::external_type_specification]
#[verifier::external_body]
pub struct ExFmtError(core::fmt::Error);

/// The text that the destination of `f` has accepted through `f` so far.
///
/// A `Formatter` writes into a `core::fmt::Write`, whose `write_str`
/// succeeds only once the whole slice has been written; this names what has
/// been written that way.
pub uninterp spec fn formatter_text(f: Formatter<'_>) -> Seq<char>;

/// `Formatter::write_str` hands `data` on to the formatter's destination,
/// unchanged and whatever the formatting flags are. When it returns `Ok`,
/// the destination has accepted all of `data` after what it held before.
/// Nothing is claimed of a call that returns `Err`.
pub assume_specification<'a>[ Formatter::<'a>::write_str ](
    f: &mut Formatter<'a>,
    data: &str,
) -> (r: Result<(), core::fmt::Error>)
    ensures
        r is Ok ==> formatter_text(*final(f)) == formatter_text(*old(f)) + data@,
;

} // verus!
