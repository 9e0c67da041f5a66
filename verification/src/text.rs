//! Text on its way to and from the native library.
//!
//! The native library takes and returns C strings: bytes that end at the
//! first zero byte, in no stated encoding. Text that goes out must therefore
//! hold no zero byte, and bytes that come in must be checked to be UTF-8
//! before they become a `String`.

use vstd::prelude::*;
use vstd::string::StringSliceAdditionalSpecFns;
use vstd::utf8::{decode_utf8, encode_utf8_decode_utf8, valid_utf8};

verus! {

/// The error of `core::str::from_utf8`, carried through unopened.
#[verifier::external_type_specification]
#[verifier::external_body]
pub struct ExUtf8Error(core::str::Utf8Error);

/// `core::str::from_utf8` accepts exactly the well-formed UTF-8 byte
/// sequences, and the string slice it returns is made of the bytes it was
/// given.
pub assume_specification[ core::str::from_utf8 ](v: &[u8]) -> (text: Result<
    &str,
    core::str::Utf8Error,
>)
    ensures
        text is Ok <==> valid_utf8(v@),
        text matches Ok(s) ==> s.spec_bytes() == v@,
;

/// Bytes from the native library that are not well-formed UTF-8.
#[derive(Clone, Copy, Debug, PartialEq, Eq, Structural)]
pub struct InvalidUtf8;

/// Text for the native library that holds a zero byte before its end.
#[derive(Clone, Copy, Debug, PartialEq, Eq, Structural)]
pub struct NulError {
    /// Index of the first zero byte in the text's UTF-8 encoding.
    pub position: usize,
}

/// Whether `position` is the index of the first zero byte in `bytes`.
pub open spec fn is_first_nul(bytes: Seq<u8>, position: int) -> bool {
    &&& 0 <= position < bytes.len()
    &&& bytes[position] == 0
    &&& forall|i: int| 0 <= i < position ==> bytes[i] != 0
}

/// Whether `bytes` holds no zero byte.
pub open spec fn nul_free(bytes: Seq<u8>) -> bool {
    forall|i: int| 0 <= i < bytes.len() ==> bytes[i] != 0
}

/// Turns bytes that the native library handed out into a `String`.
///
/// Succeeds exactly when the bytes are well-formed UTF-8; the string then
/// holds the characters that they encode.
pub fn string_from_utf8(bytes: &[u8]) -> (text: Result<String, InvalidUtf8>)
    ensures
        match text {
            Ok(s) => valid_utf8(bytes@) && s@ == decode_utf8(bytes@),
            Err(_) => !valid_utf8(bytes@),
        },
{
    match core::str::from_utf8(bytes) {
        Ok(s) => {
            proof {
                encode_utf8_decode_utf8(s@);
            }
            Ok(s.to_owned())
        },
        Err(_) => Err(InvalidUtf8),
    }
}

/// Lays `text` out as a C string: its UTF-8 bytes followed by one zero byte.
///
/// Fails exactly when the text itself holds a zero byte, which would end the
/// C string early, and then reports where the first one stands.
pub fn c_string_bytes(text: &str) -> (out: Result<Vec<u8>, NulError>)
    ensures
        match out {
            Ok(c) => nul_free(text.spec_bytes()) && c@ == text.spec_bytes().push(0),
            Err(e) => is_first_nul(text.spec_bytes(), e.position as int),
        },
{
    let bytes = text.as_bytes();
    let mut c: Vec<u8> = Vec::new();
    let mut i: usize = 0;
    while i < bytes.len()
        invariant
            bytes@ == text.spec_bytes(),
            0 <= i <= bytes@.len(),
            c@ == bytes@.subrange(0, i as int),
            nul_free(c@),
        decreases bytes@.len() - i,
    {
        let byte = bytes[i];
        if byte == 0 {
            assert forall|j: int| 0 <= j < i implies bytes@[j] != 0 by {
                assert(c@[j] == bytes@[j]);
            }
            return Err(NulError { position: i });
        }
        c.push(byte);
        i += 1;
        assert(c@ == bytes@.subrange(0, i as int));
    }
    assert(bytes@.subrange(0, i as int) == bytes@);
    c.push(0);
    Ok(c)
}

} // verus!
