use vstd::prelude::*;
use vstd::string::*;
use vstd::utf8::*;
use crate::error::StealthError;

verus! {

/// The longest handle, in bytes, that the registry accepts.
pub const MAX_HANDLE_LEN: usize = 32;

/// Whether `c` may occur in a handle: an ASCII letter, an ASCII digit or `_`.
pub open spec fn is_handle_char(c: char) -> bool {
    ||| 'a' <= c <= 'z'
    ||| 'A' <= c <= 'Z'
    ||| '0' <= c <= '9'
    ||| c == '_'
}

/// Length of a handle in bytes, as it is stored and hashed.
pub open spec fn handle_byte_len(handle: Seq<char>) -> nat {
    encode_utf8(handle).len()
}

/// Whether every character of `handle` may occur in a handle.
pub open spec fn all_handle_chars(handle: Seq<char>) -> bool {
    forall|i: int| 0 <= i < handle.len() ==> is_handle_char(#[trigger] handle[i])
}

/// The first reason, if any, to reject `handle`: emptiness is looked at first,
/// then the length, then the characters.
pub open spec fn handle_defect(handle: Seq<char>) -> Option<StealthError> {
    if handle.len() == 0 {
        Some(StealthError::HandleEmpty)
    } else if handle_byte_len(handle) > MAX_HANDLE_LEN {
        Some(StealthError::HandleTooLong)
    } else if !all_handle_chars(handle) {
        Some(StealthError::InvalidHandleChars)
    } else {
        None
    }
}

/// A handle is valid when nothing is wrong with it.
pub open spec fn is_valid_handle(handle: Seq<char>) -> bool {
    handle_defect(handle) is None
}

/// Tells whether `c` may occur in a handle.
pub fn handle_char_allowed(c: char) -> (allowed: bool)
    ensures
        allowed == is_handle_char(c),
{
    (c >= 'a' && c <= 'z') || (c >= 'A' && c <= 'Z') || (c >= '0' && c <= '9') || c == '_'
}

/// Checks a candidate handle and reports the first thing wrong with it.
pub fn validate_handle(handle: &str) -> (checked: Result<(), StealthError>)
    ensures
        checked == match handle_defect(handle@) {
            Some(e) => Err::<(), StealthError>(e),
            None => Ok(()),
        },
{
    if handle.is_empty() {
        return Err(StealthError::HandleEmpty);
    }
    if handle.as_bytes().len() > MAX_HANDLE_LEN {
        return Err(StealthError::HandleTooLong);
    }
    for c in it: handle.chars()
        invariant
            it.seq() == handle@,
            handle@.len() > 0,
            handle_byte_len(handle@) <= MAX_HANDLE_LEN,
            forall|k: int| 0 <= k < it.index() ==> is_handle_char(#[trigger] handle@[k]),
    {
        if !handle_char_allowed(c) {
            assert(!is_handle_char(handle@[it.index() as int]));
            return Err(StealthError::InvalidHandleChars);
        }
    }
    Ok(())
}

} // verus!
