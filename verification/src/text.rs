//! Turning bytes of unknown encoding into text.

use vstd::prelude::*;
use vstd::string::StringSliceAdditionalSpecFns;
use vstd::utf8::*;

verus! {

/// `core::str::Utf8Error`, the error of a failed UTF-8 validation. It is
/// carried through as it is; nothing is claimed of what it holds.
#[verifier::external_type_specification]
#[verifier::external_body]
pub struct ExUtf8Error(core::str::Utf8Error);

/// `core::str::from_utf8` succeeds on exactly the well-formed UTF-8 byte
/// sequences, and the string it then returns consists of the very bytes it
/// was given.
pub assume_specification[ core::str::from_utf8 ](v: &[u8]) -> (r: Result<&str, core::str::Utf8Error>)
    ensures
        r is Ok <==> valid_utf8(v@),
        r matches Ok(s) ==> s.spec_bytes() == v@,
;

/// The text that `String::from_utf8_lossy` makes of `bytes`: the decoded
/// characters, with U+FFFD in place of each ill-formed stretch.
pub uninterp spec fn lossy_text(bytes: Seq<u8>) -> Seq<char>;

/// Calls `String::from_utf8_lossy`, whose result depends on the bytes alone
/// and is named [`lossy_text`]. Nothing more is claimed of it.
#[verifier::external_body]
fn from_utf8_lossy(bytes: &[u8]) -> (text: String)
    ensures
        text@ == lossy_text(bytes@),
{
    String::from_utf8_lossy(bytes).into_owned()
}

/// What a conversion from the locale's encoding produced: the converted
/// text, and how many of the input bytes the converter consumed to make it.
#[derive(Debug)]
pub struct Converted {
    pub text: String,
    pub bytes_read: usize,
}

/// The text shown for bytes that are not UTF-8, given the outcome of the
/// locale conversion. A conversion counts only if it consumed the whole
/// input; otherwise the bytes are rendered lossily.
pub open spec fn fallback_text(bytes: Seq<u8>, conversion: Option<Converted>) -> Seq<char> {
    match conversion {
        Some(c) if c.bytes_read == bytes.len() => c.text@,
        _ => lossy_text(bytes),
    }
}

/// Decodes `bytes` as UTF-8, or returns `None` if they are not well-formed.
pub fn utf8(bytes: &[u8]) -> (text: Option<String>)
    ensures
        text is Some <==> valid_utf8(bytes@),
        text matches Some(t) ==> t@ == decode_utf8(bytes@),
{
    match core::str::from_utf8(bytes) {
        Ok(s) => {
            proof {
                encode_utf8_decode_utf8(s@);
            }
            Some(s.to_owned())
        },
        Err(_) => None,
    }
}

/// Settles on a text for bytes that are not UTF-8, once the locale
/// conversion has been attempted.
pub fn fallback(bytes: &[u8], conversion: Option<Converted>) -> (text: String)
    ensures
        text@ == fallback_text(bytes@, conversion),
{
    match conversion {
        Some(c) => {
            if c.bytes_read == bytes.len() {
                c.text
            } else {
                from_utf8_lossy(bytes)
            }
        },
        None => from_utf8_lossy(bytes),
    }
}

/// Decodes `bytes` by the three-step rule: exact UTF-8 first; failing that,
/// the locale conversion `to_utf8`, accepted only if it consumed every byte;
/// failing that, a lossy rendering. The converter is not consulted for bytes
/// that are UTF-8.
pub fn decode<F: FnOnce(&[u8]) -> Option<Converted>>(bytes: &[u8], to_utf8: F) -> (text: String)
    requires
        !valid_utf8(bytes@) ==> call_requires(to_utf8, (bytes,)),
    ensures
        valid_utf8(bytes@) ==> text@ == decode_utf8(bytes@),
        !valid_utf8(bytes@) ==> exists|conversion: Option<Converted>|
            call_ensures(to_utf8, (bytes,), conversion) && text@ == fallback_text(
                bytes@,
                conversion,
            ),
{
    match utf8(bytes) {
        Some(text) => text,
        None => {
            let conversion = to_utf8(bytes);
            fallback(bytes, conversion)
        },
    }
}

} // verus!
