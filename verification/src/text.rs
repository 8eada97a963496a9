//! Decoding bytes as UTF-8 text, as the standard library does it.
//!
//! Nothing in this module is proved: each item states, as a contract that
//! the verifier takes on trust, what one function of `core::str` does.

use core::str::Utf8Error;
use vstd::prelude::*;
use vstd::utf8::*;

verus! {

/// Why bytes are no UTF-8 text, `core::str::Utf8Error`.
#[verifier::external_type_specification]
#[verifier::external_body]
pub struct ExUtf8Error(core::str::Utf8Error);

/// The message with which decoding `bytes` fails; it has a meaning only
/// for bytes that are not valid UTF-8.
pub uninterp spec fn utf8_failure(bytes: Seq<u8>) -> Seq<char>;

/// The message that a `Utf8Error` is shown as.
pub uninterp spec fn utf8_error_text(error: Utf8Error) -> Seq<char>;

/// `core::str::from_utf8`. Claimed: it succeeds exactly on valid UTF-8 and
/// then hands out the characters that the bytes encode; a failure depends
/// on the bytes alone, so its message is the one that `utf8_failure` names
/// for them.
pub assume_specification[ core::str::from_utf8 ](bytes: &[u8]) -> (decoded: Result<
    &str,
    Utf8Error,
>)
    ensures
        match decoded {
            Ok(text) => valid_utf8(bytes@) && text@ == decode_utf8(bytes@),
            Err(error) => !valid_utf8(bytes@) && utf8_error_text(error) == utf8_failure(bytes@),
        },
;

/// `ToString::to_string` on a `Utf8Error`, that is its `Display` text.
/// Claimed: the text is the one that `utf8_error_text` names for this
/// error.
#[verifier::external_body]
pub(crate) fn decode_error_text(error: &Utf8Error) -> (text: String)
    ensures
        text@ == utf8_error_text(*error),
{
    error.to_string()
}

} // verus!
