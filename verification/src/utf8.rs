//! What Verus is told about the standard library's UTF-8 validation.

use vstd::prelude::*;
use vstd::string::StringSliceAdditionalSpecFns;
use vstd::utf8::valid_utf8;

verus! {

/// The standard library's description of why bytes are not UTF-8. Verus sees
/// nothing inside it: the decoders only carry it to the caller.
#[verifier::external_type_specification]
#[verifier::external_body]
pub struct ExUtf8Error(core::str::Utf8Error);

/// The error that `core::str::from_utf8` returns for `bytes` when they are
/// not valid UTF-8. Which error that is depends on the bytes alone; beyond
/// that nothing is said of it.
pub uninterp spec fn utf8_error(bytes: Seq<u8>) -> core::str::Utf8Error;

/// `core::str::from_utf8` checks that the bytes are valid UTF-8 and, if so,
/// returns them unchanged as a string slice; otherwise it returns an error,
/// always the same one for the same bytes. The contract says exactly that,
/// with `vstd::utf8::valid_utf8` as the meaning of "valid UTF-8".
pub assume_specification<'a>[ core::str::from_utf8 ](v: &'a [u8]) -> (res: Result<
    &'a str,
    core::str::Utf8Error,
>)
    ensures
        res is Ok <==> valid_utf8(v@),
        res matches Ok(s) ==> s.spec_bytes() == v@,
        res matches Err(e) ==> e == utf8_error(v@),
;

} // verus!
