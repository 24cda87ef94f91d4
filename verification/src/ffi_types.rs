use vstd::prelude::*;
use crate::text::{c_text, cstr_to_string, text_or};
use vstd::utf8::{decode_utf8, valid_utf8};

verus! {

/// Returned by the exported entry points that report a status code when they fail.
pub const RNW_ERROR: i32 = -1;

/// The browser handle that no live browser ever has.
pub const RNW_HANDLE_INVALID: u64 = 0;

/// A key event as the host application hands it over.
#[derive(Clone, Copy, Debug, PartialEq, Eq, Structural)]
pub struct RnwKeyEvent {
    /// 0 = RawKeyDown, 1 = KeyUp, 2 = Char
    pub event_type: i32,
    pub windows_key_code: i32,
    pub native_key_code: i32,
    pub character: u16,
    pub unmodified_character: u16,
    pub modifiers: u32,
    pub is_system_key: i32,
}

/// A response to a resource request, as the host application supplies it.
pub struct PendingResponse {
    pub status_code: i32,
    pub mime_type: String,
    pub data: Vec<u8>,
}

/// Where the host writes its answer to a resource request while its callback runs.
pub struct ResponseContext {
    pub status_code: i32,
    pub mime_type: String,
    pub data: Vec<u8>,
    /// Whether the host wrote an answer at all.
    pub was_set: bool,
}

/// The MIME type that a response gets where the host names none that can be read.
pub open spec fn default_mime_type() -> Seq<char> {
    "application/octet-stream"@
}

/// The default MIME type is `application/octet-stream`.
pub proof fn law_default_mime_type_is_octet_stream()
    ensures
        default_mime_type() == "application/octet-stream"@,
{
}

/// The MIME type that the host's string argument names: its text, or
/// `application/octet-stream` for a null pointer or bytes that are not UTF-8.
pub fn response_mime_type(mime_type: Option<&[u8]>) -> (r: String)
    ensures
        r@ == text_or(c_text(mime_type), default_mime_type()),
        mime_type matches Some(b) ==> (valid_utf8(b@) ==> r@ == decode_utf8(b@)),
        mime_type matches Some(b) ==> (!valid_utf8(b@) ==> r@ == "application/octet-stream"@),
        mime_type is None ==> r@ == "application/octet-stream"@,
{
    match cstr_to_string(mime_type) {
        Some(s) => s,
        None => "application/octet-stream".to_owned(),
    }
}

/// How many body bytes the host's data pointer offers: `data_len` where the pointer is not
/// null and the length is positive, else none.
pub fn response_body_len(data_present: bool, data_len: i32) -> (n: usize)
    ensures
        data_present && data_len > 0 ==> n == data_len,
        !(data_present && data_len > 0) ==> n == 0,
{
    if data_present && data_len > 0 {
        data_len as usize
    } else {
        0
    }
}

impl ResponseContext {
    /// An empty context that holds no answer yet.
    pub fn new() -> (r: ResponseContext)
        ensures
            r.status_code == 0,
            r.mime_type@ == Seq::<char>::empty(),
            r.data@ == Seq::<u8>::empty(),
            !r.was_set,
    {
        ResponseContext { status_code: 0, mime_type: String::new(), data: Vec::new(), was_set: false }
    }

    /// Records the host's answer: its status code, its MIME type (the default one where the
    /// argument cannot be read) and its body; from then on the context counts as answered.
    pub fn write(&mut self, status_code: i32, mime_type: Option<&[u8]>, data: Vec<u8>)
        ensures
            final(self).status_code == status_code,
            final(self).mime_type@ == text_or(c_text(mime_type), default_mime_type()),
            final(self).data@ == data@,
            final(self).was_set,
    {
        self.status_code = status_code;
        self.mime_type = response_mime_type(mime_type);
        self.data = data;
        self.was_set = true;
    }
}

} // verus!
