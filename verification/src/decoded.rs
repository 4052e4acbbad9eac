//! The common shape of the decoders' contracts.
//!
//! Each decoder has a specification: a function from the bytes in front of
//! the cursor to a [`Decoded`] outcome. The executable decoder then promises
//! that what it returned, and where it left the cursor, [`realizes`] that
//! outcome.

use crate::error::MinecraftParseError;
use vstd::prelude::*;

verus! {

/// What a decoder makes of the bytes in front of it: the decoded value with
/// the number of bytes it occupies, or the failure.
pub type Decoded<T> = Result<(T, nat), MinecraftParseError>;

/// A decoder that started on `input`, returned `result` and left `rest` in
/// front of the cursor has done what `expected` says.
///
/// On success the value's view is the expected one and the cursor has moved
/// past exactly the bytes that the value occupies. On failure the error is
/// the expected one; nothing is said of the cursor, which the caller must
/// not use again.
pub open spec fn realizes<T: View>(
    result: Result<T, MinecraftParseError>,
    rest: Seq<u8>,
    input: Seq<u8>,
    expected: Decoded<T::V>,
) -> bool {
    match expected {
        Ok((value, taken)) => {
            &&& result matches Ok(decoded)
            &&& decoded@ == value
            &&& taken <= input.len()
            &&& rest == input.skip(taken as int)
        },
        Err(failure) => {
            &&& result matches Err(error)
            &&& error == failure
        },
    }
}

/// Decoding is deterministic. Two runs of a decoder over the same bytes,
/// each from a cursor of its own, realize the same outcome. Hence both
/// succeed or both fail; if they succeed, the values have the same view and
/// the cursors are left before the same bytes; if they fail, the errors are
/// the same.
pub proof fn lemma_decoding_is_deterministic<T: View>(
    input: Seq<u8>,
    expected: Decoded<T::V>,
    first: Result<T, MinecraftParseError>,
    first_rest: Seq<u8>,
    second: Result<T, MinecraftParseError>,
    second_rest: Seq<u8>,
)
    requires
        realizes(first, first_rest, input, expected),
        realizes(second, second_rest, input, expected),
    ensures
        first is Ok <==> second is Ok,
        first is Ok ==> first->Ok_0@ == second->Ok_0@ && first_rest == second_rest,
        first is Err ==> first->Err_0 == second->Err_0,
{
}

} // verus!
