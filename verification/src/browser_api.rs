use vstd::prelude::*;
use vstd::string::StringSliceAdditionalSpecFns;
use crate::ffi_types::{RnwKeyEvent, RNW_HANDLE_INVALID};
use crate::render_handler::Rect;
use crate::state::GlobalState;
use crate::text::{c_text, cstr_to_cef_string, cstr_to_string, text_or, utf8_text};
use vstd::utf8::{decode_utf8, valid_utf8};

verus! {

// ---------------------------------------------------------------------------------------
// Browser creation and the registry
// ---------------------------------------------------------------------------------------

/// The URL a new browser opens: the caller's, or `about:blank` where the argument is a
/// null pointer or not UTF-8.
pub fn initial_url(url: Option<&[u8]>) -> (r: String)
    ensures
        r@ == text_or(c_text(url), "about:blank"@),
        url matches Some(b) ==> (valid_utf8(b@) ==> r@ == decode_utf8(b@)),
        url matches Some(b) ==> (!valid_utf8(b@) ==> r@ == "about:blank"@),
        url is None ==> r@ == "about:blank"@,
{
    match cstr_to_string(url) {
        Some(s) => s,
        None => "about:blank".to_owned(),
    }
}

/// How a browser's window is set up.
pub struct BrowserWindowPlan {
    /// 1 where the browser renders off screen into the host's buffers.
    pub windowless_rendering_enabled: i32,
    /// The frame rate of off-screen rendering; 0 leaves CEF's default.
    pub windowless_frame_rate: i32,
    /// The window's bounds; all zero leaves CEF's default.
    pub bounds: Rect,
    /// Whether the window uses the Alloy runtime style rather than CEF's default.
    pub alloy_runtime_style: bool,
}

/// The frame rate of browsers that render off screen.
pub const OFFSCREEN_FRAME_RATE: i32 = 60;

/// The window of an off-screen browser: windowless, at 60 frames a second.
pub fn offscreen_browser_plan() -> (p: BrowserWindowPlan)
    ensures
        p.windowless_rendering_enabled == 1,
        p.windowless_frame_rate == OFFSCREEN_FRAME_RATE,
        p.bounds == (Rect { x: 0, y: 0, width: 0, height: 0 }),
        !p.alloy_runtime_style,
{
    BrowserWindowPlan {
        windowless_rendering_enabled: 1,
        windowless_frame_rate: OFFSCREEN_FRAME_RATE,
        bounds: Rect { x: 0, y: 0, width: 0, height: 0 },
        alloy_runtime_style: false,
    }
}

/// The window of a popup browser: a native Alloy-style window of the given size at the
/// origin.
pub fn popup_window_plan(width: i32, height: i32) -> (p: BrowserWindowPlan)
    ensures
        p.windowless_rendering_enabled == 0,
        p.windowless_frame_rate == 0,
        p.bounds == (Rect { x: 0, y: 0, width, height }),
        p.alloy_runtime_style,
{
    BrowserWindowPlan {
        windowless_rendering_enabled: 0,
        windowless_frame_rate: 0,
        bounds: Rect { x: 0, y: 0, width, height },
        alloy_runtime_style: true,
    }
}

/// Finishes creating a browser once CEF has answered: a created browser is registered
/// when the interface is initialized, and its handle returned; otherwise the result is
/// the invalid handle.
pub fn finish_browser_create<B>(state: &mut Option<GlobalState<B>>, browser: Option<B>) -> (handle: u64)
    requires
        (*old(state)) matches Some(s) ==> s.handle_counter() < u64::MAX,
    ensures
        browser is None ==> handle == RNW_HANDLE_INVALID && *final(state) == *old(state),
        (*old(state)) is None ==> handle == RNW_HANDLE_INVALID && (*final(state)) is None,
        (*old(state)) matches Some(s) ==> (browser matches Some(b) ==> ((*final(state)) matches Some(
            t,
        ) && {
            &&& handle == s.handle_counter()
            &&& handle != RNW_HANDLE_INVALID
            &&& !s.browser_map().contains_key(handle)
            &&& t.browser_map() == s.browser_map().insert(handle, b)
            &&& t.handle_counter() == s.handle_counter() + 1
            &&& t.request_counter() == s.request_counter()
            &&& t.pending_map() == s.pending_map()
        })),
{
    match browser {
        Some(b) => match state {
            Some(s) => s.insert_browser(b),
            None => RNW_HANDLE_INVALID,
        },
        None => RNW_HANDLE_INVALID,
    }
}

/// Closes a handle: takes its browser out of the registry (where the interface is
/// initialized and the handle live) so that the caller can close the browser's window.
pub fn close_browser<B>(state: &mut Option<GlobalState<B>>, handle: u64) -> (r: Option<B>)
    ensures
        (*old(state)) is None ==> r is None && (*final(state)) is None,
        (*old(state)) matches Some(s) ==> ((*final(state)) matches Some(t) && {
            &&& t.browser_map() == s.browser_map().remove(handle)
            &&& t.handle_counter() == s.handle_counter()
            &&& t.request_counter() == s.request_counter()
            &&& t.pending_map() == s.pending_map()
            &&& s.browser_map().contains_key(handle) ==> r == Some(s.browser_map()[handle])
            &&& !s.browser_map().contains_key(handle) ==> r is None
        }),
{
    match state {
        Some(s) => s.remove_browser(handle),
        None => None,
    }
}

// ---------------------------------------------------------------------------------------
// Reading the current URL into the caller's buffer
// ---------------------------------------------------------------------------------------

/// What `rnw_browser_get_url` does with a URL: the bytes to write into the caller's buffer
/// (none where there is no buffer or no room), and the value to return.
pub struct UrlCopy {
    pub written: Option<Vec<u8>>,
    pub result: i32,
}

/// How many URL bytes fit into a buffer of `buf_len` bytes beside the terminating zero
/// (the length taken as an unsigned size, as the interface does).
pub open spec fn url_copy_len(url_len: nat, buf_len: i32) -> int {
    let room: int = if (buf_len as usize) >= 1 {
        (buf_len as usize) - 1
    } else {
        0
    };
    if url_len < room {
        url_len as int
    } else {
        room
    }
}

/// In a buffer of positive length `buf_len`, the URL fills all but the last byte, or is
/// copied whole where it is shorter than that.
pub proof fn law_url_copy_len_fits_buffer(url_len: nat, buf_len: i32)
    requires
        buf_len > 0,
    ensures
        url_copy_len(url_len, buf_len) == (if url_len < buf_len - 1 { url_len as int } else { buf_len - 1 }),
        url_len < buf_len ==> url_copy_len(url_len, buf_len) == url_len,
{
}

/// Copies a URL (its UTF-8 form from CEF, or `None` where it was not UTF-8 and counts as
/// empty) into a caller's buffer of `buf_len` bytes: as many bytes as fit beside the
/// terminating zero, then the zero. Nothing is written where the buffer is null or its
/// length not positive. The result is the URL's full length in bytes, as a C `int`, so that
/// the caller can tell that it was cut short.
pub fn copy_url_to_buffer(url: Option<&str>, buf_present: bool, buf_len: i32) -> (c: UrlCopy)
    ensures
        ({
            let bytes = match url {
                Some(s) => s.spec_bytes(),
                None => Seq::<u8>::empty(),
            };
            let n = url_copy_len(bytes.len(), buf_len);
            &&& c.result == bytes.len() as i32
            &&& (buf_present && buf_len > 0) ==> (c.written matches Some(w) && w@ == bytes.subrange(0, n).push(0u8)
                && w@.len() <= buf_len)
            &&& !(buf_present && buf_len > 0) ==> c.written is None
        }),
        ({
            let bytes = match url {
                Some(s) => s.spec_bytes(),
                None => Seq::<u8>::empty(),
            };
            let fit: int = if bytes.len() < buf_len - 1 { bytes.len() as int } else { buf_len - 1 };
            &&& (buf_present && buf_len > 0) ==> (c.written matches Some(w) && w@ == bytes.subrange(0, fit).push(0u8))
            &&& (buf_present && buf_len > 0 && bytes.len() < buf_len) ==> (c.written matches Some(w) && w@ == bytes.push(0u8))
        }),
{
    let text: &str = match url {
        Some(s) => s,
        None => "",
    };
    proof {
        if url is None {
            reveal_strlit("");
            assert(text@ =~= Seq::<char>::empty());
            assert(text.spec_bytes() =~= Seq::<u8>::empty());
        }
    }
    let bytes = text.as_bytes();
    let room: usize = #[verifier::truncate] (buf_len as usize);
    let room: usize = if room >= 1 {
        room - 1
    } else {
        0
    };
    let copy_len: usize = if bytes.len() < room {
        bytes.len()
    } else {
        room
    };
    let result: i32 = #[verifier::truncate] (bytes.len() as i32);
    if buf_present && buf_len > 0 {
        let mut w: Vec<u8> = Vec::new();
        let mut i: usize = 0;
        while i < copy_len
            invariant
                copy_len <= bytes@.len(),
                i <= copy_len,
                w@ == bytes@.subrange(0, i as int),
            decreases copy_len - i,
        {
            w.push(bytes[i]);
            i = i + 1;
            assert(w@ =~= bytes@.subrange(0, i as int));
        }
        w.push(0u8);
        UrlCopy { written: Some(w), result }
    } else {
        UrlCopy { written: None, result }
    }
}

// ---------------------------------------------------------------------------------------
// Input events
// ---------------------------------------------------------------------------------------

/// A mouse button as CEF names it.
#[derive(Clone, Copy, Debug, PartialEq, Eq, Structural)]
pub enum MouseButton {
    Left,
    Middle,
    Right,
}

/// Decodes the host's button code: 1 is the middle button, 2 the right one, anything
/// else the left one.
pub fn mouse_button_from_code(button: i32) -> (b: MouseButton)
    ensures
        button == 1 ==> b == MouseButton::Middle,
        button == 2 ==> b == MouseButton::Right,
        button != 1 && button != 2 ==> b == MouseButton::Left,
{
    match button {
        1 => MouseButton::Middle,
        2 => MouseButton::Right,
        _ => MouseButton::Left,
    }
}

/// The kind of a keyboard event as CEF names it.
#[derive(Clone, Copy, Debug, PartialEq, Eq, Structural)]
pub enum KeyEventKind {
    RawKeyDown,
    KeyUp,
    Char,
}

/// Decodes the host's key-event type: 1 is a key release, 2 a character, anything else a
/// raw key press.
pub fn key_event_kind_from_code(code: i32) -> (kind: KeyEventKind)
    ensures
        code == 1 ==> kind == KeyEventKind::KeyUp,
        code == 2 ==> kind == KeyEventKind::Char,
        code != 1 && code != 2 ==> kind == KeyEventKind::RawKeyDown,
{
    match code {
        1 => KeyEventKind::KeyUp,
        2 => KeyEventKind::Char,
        _ => KeyEventKind::RawKeyDown,
    }
}

/// The key event that CEF is sent for a host key event.
#[derive(Clone, Copy, Debug, PartialEq, Eq, Structural)]
pub struct KeyEventPlan {
    pub kind: KeyEventKind,
    pub modifiers: u32,
    pub windows_key_code: i32,
    pub native_key_code: i32,
    pub is_system_key: i32,
    pub character: u16,
    pub unmodified_character: u16,
    pub focus_on_editable_field: i32,
}

/// Converts a host key event for CEF: the kind decoded, every other field carried over,
/// and the event never claimed to target an editable field.
pub fn key_event_from_host(e: &RnwKeyEvent) -> (k: KeyEventPlan)
    ensures
        e.event_type == 1 ==> k.kind == KeyEventKind::KeyUp,
        e.event_type == 2 ==> k.kind == KeyEventKind::Char,
        e.event_type != 1 && e.event_type != 2 ==> k.kind == KeyEventKind::RawKeyDown,
        k.modifiers == e.modifiers,
        k.windows_key_code == e.windows_key_code,
        k.native_key_code == e.native_key_code,
        k.is_system_key == e.is_system_key,
        k.character == e.character,
        k.unmodified_character == e.unmodified_character,
        k.focus_on_editable_field == 0,
{
    KeyEventPlan {
        kind: key_event_kind_from_code(e.event_type),
        modifiers: e.modifiers,
        windows_key_code: e.windows_key_code,
        native_key_code: e.native_key_code,
        is_system_key: e.is_system_key,
        character: e.character,
        unmodified_character: e.unmodified_character,
        focus_on_editable_field: 0,
    }
}

// ---------------------------------------------------------------------------------------
// Initialization
// ---------------------------------------------------------------------------------------

/// The settings the host passes to `rnw_initialize`, each path as the bytes of its C string
/// (`None` for a null pointer).
pub struct InitSettings {
    pub no_sandbox: i32,
    pub remote_debugging_port: i32,
    pub subprocess_path: Option<Vec<u8>>,
    pub resources_dir_path: Option<Vec<u8>>,
    pub locales_dir_path: Option<Vec<u8>>,
    pub cache_path: Option<Vec<u8>>,
    pub user_agent: Option<Vec<u8>>,
    pub cookieable_schemes: Option<Vec<u8>>,
    pub framework_dir_path: Option<Vec<u8>>,
    pub main_bundle_path: Option<Vec<u8>>,
}

/// The CEF settings that `rnw_initialize` passes on; a path that is `None` keeps CEF's
/// default.
pub struct CefSettingsPlan {
    pub windowless_rendering_enabled: i32,
    pub external_message_pump: i32,
    pub no_sandbox: i32,
    pub remote_debugging_port: i32,
    pub browser_subprocess_path: Option<String>,
    pub resources_dir_path: Option<String>,
    pub locales_dir_path: Option<String>,
    pub cache_path: Option<String>,
    pub user_agent: Option<String>,
    pub cookieable_schemes_list: Option<String>,
    pub framework_dir_path: Option<String>,
    pub main_bundle_path: Option<String>,
}

/// The value of a path setting: left alone where the host passed no string, else the
/// string's text (empty where it is not UTF-8).
pub open spec fn path_setting(p: Option<Vec<u8>>) -> Option<Seq<char>> {
    match p {
        Some(b) => Some(text_or(utf8_text(b@), seq![])),
        None => None,
    }
}

/// A path the host passed is always set, whatever its length: to the text its bytes encode,
/// or to the empty string where they are not UTF-8; a path it did not pass is left alone.
pub proof fn law_path_setting_keeps_every_given_path(p: Option<Vec<u8>>)
    ensures
        p is None <==> path_setting(p) is None,
        p matches Some(b) ==> (valid_utf8(b@) ==> path_setting(p) == Some(decode_utf8(b@))),
        p matches Some(b) ==> (!valid_utf8(b@) ==> path_setting(p) == Some(Seq::<char>::empty())),
{
}

/// Converts one path setting.
pub fn convert_path_setting(p: &Option<Vec<u8>>) -> (r: Option<String>)
    ensures
        crate::text::string_text(r) == path_setting(*p),
        p is None <==> r is None,
        p matches Some(b) ==> (valid_utf8(b@) ==> (r matches Some(s) && s@ == decode_utf8(b@))),
        p matches Some(b) ==> (!valid_utf8(b@) ==> (r matches Some(s) && s@.len() == 0)),
{
    match p {
        Some(b) => Some(cstr_to_cef_string(Some(b.as_slice()))),
        None => None,
    }
}

/// The CEF settings for the host's settings: off-screen rendering and an external message
/// pump always, the sandbox switched off exactly where the host asks (any non-zero value),
/// the debugging port as given, and each path that the host passed.
pub fn plan_cef_settings(s: &InitSettings) -> (p: CefSettingsPlan)
    ensures
        p.windowless_rendering_enabled == 1,
        p.external_message_pump == 1,
        p.no_sandbox == (if s.no_sandbox != 0 { 1i32 } else { 0i32 }),
        p.remote_debugging_port == s.remote_debugging_port,
        crate::text::string_text(p.browser_subprocess_path) == path_setting(s.subprocess_path),
        crate::text::string_text(p.resources_dir_path) == path_setting(s.resources_dir_path),
        crate::text::string_text(p.locales_dir_path) == path_setting(s.locales_dir_path),
        crate::text::string_text(p.cache_path) == path_setting(s.cache_path),
        crate::text::string_text(p.user_agent) == path_setting(s.user_agent),
        crate::text::string_text(p.cookieable_schemes_list) == path_setting(s.cookieable_schemes),
        crate::text::string_text(p.framework_dir_path) == path_setting(s.framework_dir_path),
        crate::text::string_text(p.main_bundle_path) == path_setting(s.main_bundle_path),
{
    CefSettingsPlan {
        windowless_rendering_enabled: 1,
        external_message_pump: 1,
        no_sandbox: if s.no_sandbox != 0 {
            1
        } else {
            0
        },
        remote_debugging_port: s.remote_debugging_port,
        browser_subprocess_path: convert_path_setting(&s.subprocess_path),
        resources_dir_path: convert_path_setting(&s.resources_dir_path),
        locales_dir_path: convert_path_setting(&s.locales_dir_path),
        cache_path: convert_path_setting(&s.cache_path),
        user_agent: convert_path_setting(&s.user_agent),
        cookieable_schemes_list: convert_path_setting(&s.cookieable_schemes),
        framework_dir_path: convert_path_setting(&s.framework_dir_path),
        main_bundle_path: convert_path_setting(&s.main_bundle_path),
    }
}

/// The scheme and domain that a custom scheme handler is registered for: the caller's
/// strings, each empty where it is a null pointer or not UTF-8.
pub fn scheme_registration(scheme: Option<&[u8]>, domain: Option<&[u8]>) -> (r: (String, String))
    ensures
        scheme matches Some(b) ==> (valid_utf8(b@) ==> r.0@ == decode_utf8(b@)),
        domain matches Some(b) ==> (valid_utf8(b@) ==> r.1@ == decode_utf8(b@)),
        r.0@ == text_or(c_text(scheme), seq![]),
        r.1@ == text_or(c_text(domain), seq![]),
{
    let s = match cstr_to_string(scheme) {
        Some(t) => t,
        None => String::new(),
    };
    let d = match cstr_to_string(domain) {
        Some(t) => t,
        None => String::new(),
    };
    (s, d)
}

} // verus!
