use vstd::prelude::*;
use vstd::utf8::{decode_utf8, encode_utf8, encode_utf8_decode_utf8, encode_utf8_valid_utf8, valid_utf8};

use crate::cstring::{bytes_of_c, c_bytes_prefix, c_string_of, lemma_c_bytes_round_trip, nul_free};
use crate::error::BindingError;

verus! {

/// The text held by a nul-terminated buffer: the UTF-8 decoding of the bytes
/// before its terminator.
pub open spec fn text_of_c(b: Seq<u8>) -> Result<Seq<char>, BindingError> {
    match bytes_of_c(b) {
        Err(e) => Err(e),
        Ok(p) => if valid_utf8(p) {
            Ok(decode_utf8(p))
        } else {
            Err(BindingError::InvalidUtf8)
        },
    }
}

/// What a text-loading call yields: `None` stands for the native library's
/// null sentinel, `Some(b)` for a copy of the buffer it returned.
pub open spec fn text_of_loaded(loaded: Option<Vec<u8>>) -> Result<Seq<char>, BindingError> {
    match loaded {
        None => Err(BindingError::NullResult),
        Some(b) => text_of_c(b@),
    }
}

/// Relies on `String::from_utf8`: it succeeds exactly on valid UTF-8, and the
/// string then holds the characters that the bytes encode.
#[verifier::external_body]
fn string_from_utf8(b: Vec<u8>) -> (r: Option<String>)
    ensures
        r is Some <==> valid_utf8(b@),
        r matches Some(s) ==> s@ == decode_utf8(b@),
{
    String::from_utf8(b).ok()
}

/// Copies the text of a nul-terminated buffer into an owned string.
///
/// Fails with `MissingTerminator` when `buf` holds no nul, and with
/// `InvalidUtf8` when the bytes before the first nul are not UTF-8.
pub fn text_from_c_bytes(buf: &[u8]) -> (r: Result<String, BindingError>)
    ensures
        match r {
            Ok(t) => text_of_c(buf@) == Ok::<Seq<char>, BindingError>(t@),
            Err(e) => text_of_c(buf@) == Err::<Seq<char>, BindingError>(e),
        },
{
    let bytes = match c_bytes_prefix(buf) {
        Ok(v) => v,
        Err(e) => return Err(e),
    };
    match string_from_utf8(bytes) {
        Some(s) => Ok(s),
        None => Err(BindingError::InvalidUtf8),
    }
}

/// Turns the outcome of a text-loading call into an owned string, reporting
/// the null sentinel as `NullResult` instead of reading through it.
pub fn text_from_loaded(loaded: Option<Vec<u8>>) -> (r: Result<String, BindingError>)
    ensures
        match r {
            Ok(t) => text_of_loaded(loaded) == Ok::<Seq<char>, BindingError>(t@),
            Err(e) => text_of_loaded(loaded) == Err::<Seq<char>, BindingError>(e),
        },
{
    match loaded {
        None => Err(BindingError::NullResult),
        Some(v) => text_from_c_bytes(v.as_slice()),
    }
}

/// Text survives the trip to a native string and back: a string whose UTF-8
/// bytes hold no nul is encoded with a terminator, and reading that buffer
/// gives back the same characters.
pub proof fn lemma_c_text_round_trip(s: Seq<char>)
    requires
        nul_free(encode_utf8(s)),
    ensures
        c_string_of(encode_utf8(s)) == Ok::<Seq<u8>, BindingError>(encode_utf8(s).push(0u8)),
        text_of_c(encode_utf8(s).push(0u8)) == Ok::<Seq<char>, BindingError>(s),
{
    lemma_c_bytes_round_trip(encode_utf8(s));
    encode_utf8_valid_utf8(s);
    encode_utf8_decode_utf8(s);
}

} // verus!
