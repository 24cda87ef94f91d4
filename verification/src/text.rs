use vstd::prelude::*;
use vstd::string::StringSliceAdditionalSpecFns;
use vstd::utf8::{decode_utf8, encode_utf8, valid_utf8};

verus! {

broadcast use vstd::utf8::decode_utf8_encode_utf8;

/// The characters that UTF-8 bytes encode; nothing where they are not UTF-8.
pub open spec fn utf8_text(b: Seq<u8>) -> Option<Seq<char>> {
    if valid_utf8(b) {
        Some(decode_utf8(b))
    } else {
        None
    }
}

/// The text that a string argument of the C interface carries: nothing where the caller
/// passed a null pointer (`None`) or bytes that are not UTF-8, else the decoded characters.
pub open spec fn c_text(bytes: Option<&[u8]>) -> Option<Seq<char>> {
    match bytes {
        Some(b) => utf8_text(b@),
        None => None,
    }
}

/// The characters an optional owned string holds.
pub open spec fn string_text(s: Option<String>) -> Option<Seq<char>> {
    match s {
        Some(t) => Some(t@),
        None => None,
    }
}

/// The characters of `t`, or of `default` where there are none.
pub open spec fn text_or(t: Option<Seq<char>>, default: Seq<char>) -> Seq<char> {
    match t {
        Some(c) => c,
        None => default,
    }
}

/// UTF-8 bytes, of any length, carry exactly the characters they encode; other bytes
/// carry none.
pub proof fn law_utf8_text_decodes(b: Seq<u8>)
    ensures
        valid_utf8(b) ==> utf8_text(b) == Some(decode_utf8(b)),
        !valid_utf8(b) ==> utf8_text(b) is None,
{
}

/// A string argument's text is that of its bytes; a null pointer carries none.
pub proof fn law_c_text_of_bytes(bytes: Option<&[u8]>)
    ensures
        bytes is None ==> c_text(bytes) is None,
        bytes matches Some(b) ==> (valid_utf8(b@) ==> c_text(bytes) == Some(decode_utf8(b@))),
        bytes matches Some(b) ==> (!valid_utf8(b@) ==> c_text(bytes) is None),
{
}

/// A text stands in for its default exactly where it is present.
pub proof fn law_text_or_prefers_the_text(t: Option<Seq<char>>, default: Seq<char>)
    ensures
        t matches Some(c) ==> text_or(t, default) == c,
        t is None ==> text_or(t, default) == default,
{
}

/// An optional string carries its characters, and nothing where it is absent.
pub proof fn law_string_text_of_string(s: Option<String>)
    ensures
        s matches Some(t) ==> string_text(s) == Some(t@),
        s is None ==> string_text(s) is None,
{
}

/// `std::str::from_utf8`, trusted to accept exactly the well-formed UTF-8 byte strings and
/// then to hand back the characters that they encode.
#[verifier::external_body]
fn str_from_utf8(bytes: &[u8]) -> (r: Option<&str>)
    ensures
        r is Some <==> valid_utf8(bytes@),
        r matches Some(s) ==> s@ == decode_utf8(bytes@),
{
    std::str::from_utf8(bytes).ok()
}

/// Reads a string argument of the C interface: the bytes before its terminator, or `None`
/// for a null pointer. Gives `None` also where the bytes are not UTF-8.
pub fn cstr_to_string(bytes: Option<&[u8]>) -> (r: Option<String>)
    ensures
        string_text(r) == c_text(bytes),
        bytes is None ==> r is None,
        bytes matches Some(b) ==> (r is Some <==> valid_utf8(b@)),
        bytes matches Some(b) ==> (valid_utf8(b@) ==> (r matches Some(s) && s@ == decode_utf8(b@))),
{
    match bytes {
        Some(b) => match str_from_utf8(b) {
            Some(s) => Some(s.to_owned()),
            None => None,
        },
        None => None,
    }
}

/// Reads a string argument that CEF takes as a setting: a null pointer or bytes that are
/// not UTF-8 give the empty string.
pub fn cstr_to_cef_string(bytes: Option<&[u8]>) -> (r: String)
    ensures
        r@ == text_or(c_text(bytes), seq![]),
        bytes matches Some(b) ==> (valid_utf8(b@) ==> r@ == decode_utf8(b@)),
        bytes matches Some(b) ==> (!valid_utf8(b@) ==> r@.len() == 0),
        bytes is None ==> r@.len() == 0,
{
    match cstr_to_string(bytes) {
        Some(s) => s,
        None => String::new(),
    }
}

/// Whether the UTF-8 encoding of `s` holds a zero byte.
pub fn contains_nul(s: &str) -> (r: bool)
    ensures
        r == s.spec_bytes().contains(0u8),
{
    let bytes = s.as_bytes();
    let mut i: usize = 0;
    while i < bytes.len()
        invariant
            bytes@ == s.spec_bytes(),
            i <= bytes@.len(),
            forall|j: int| 0 <= j < i ==> bytes@[j] != 0u8,
        decreases bytes@.len() - i,
    {
        if bytes[i] == 0u8 {
            assert(bytes@[i as int] == 0u8);
            return true;
        }
        i = i + 1;
    }
    false
}

/// Turns the UTF-8 form of a string that CEF handed out (`None` where it was not UTF-8)
/// into the text of a C string: `default` stands in for text that was not UTF-8, and the
/// result is `None` where the text holds a zero byte, which no C string can carry.
pub fn cef_userfree_to_cstring(utf8: Option<&str>, default: &str) -> (r: Option<String>)
    ensures
        ({
            let chosen = match utf8 {
                Some(s) => s@,
                None => default@,
            };
            &&& r is Some <==> !encode_utf8(chosen).contains(0u8)
            &&& r matches Some(t) ==> t@ == chosen
        }),
{
    let text = match utf8 {
        Some(s) => s,
        None => default,
    };
    if contains_nul(text) {
        None
    } else {
        Some(text.to_owned())
    }
}

} // verus!
