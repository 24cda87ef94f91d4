use vstd::prelude::*;

verus! {

// The Linux backend has no native webview yet: every operation does nothing, and the
// queries answer as for a webview that cannot be created. Window and webview handles are
// addresses (0 for none); string arguments are the bytes of their C strings.

/// Initialization always fails on Linux.
pub fn init() -> (r: i32)
    ensures
        r == -1,
{
    -1
}

pub fn shutdown() {
}

pub fn pump() {
}

/// No webview is ever created: the result is always the null handle.
pub fn create(_parent: usize, _url: Option<&[u8]>) -> (handle: usize)
    ensures
        handle == 0,
{
    0
}

pub fn destroy(_handle: usize) {
}

pub fn navigate(_handle: usize, _url: Option<&[u8]>) {
}

pub fn reload(_handle: usize) {
}

pub fn stop(_handle: usize) {
}

pub fn go_back(_handle: usize) {
}

pub fn go_forward(_handle: usize) {
}

pub fn can_go_back(_handle: usize) -> (r: bool)
    ensures
        !r,
{
    false
}

pub fn can_go_forward(_handle: usize) -> (r: bool)
    ensures
        !r,
{
    false
}

pub fn is_loading(_handle: usize) -> (r: bool)
    ensures
        !r,
{
    false
}

pub fn execute_js(_handle: usize, _code: Option<&[u8]>) {
}

pub fn set_size(_handle: usize, _w: i32, _h: i32) {
}

pub fn set_bounds(_handle: usize, _x: i32, _y: i32, _w: i32, _h: i32) {
}

pub fn load_html(_handle: usize, _html: Option<&[u8]>, _base_url: Option<&[u8]>) {
}

pub fn set_scheme_handler<C>(_cb: Option<C>, _user_data: usize) {
}

pub fn respond_scheme(
    _request: usize,
    _data: Option<&[u8]>,
    _len: i32,
    _mime: Option<&[u8]>,
    _status: i32,
) {
}

pub fn set_message_handler<C>(_handle: usize, _cb: Option<C>, _user_data: usize) {
}

pub fn set_before_browse_handler<C>(_cb: Option<C>, _user_data: usize) {
}

} // verus!
