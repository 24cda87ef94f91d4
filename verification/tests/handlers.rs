use robust_native_webview::ffi_types::{
    response_body_len, response_mime_type, ResponseContext, RnwKeyEvent, RNW_ERROR,
    RNW_HANDLE_INVALID,
};
use robust_native_webview::render_handler::{dirty_count, flatten_dirty_rects, view_rect, Rect};
use robust_native_webview::request_handler::{
    disables_default_handling, interpret_host_reply, is_file_url, route_resource_request,
    HostReply, ResourceRoute,
};
use robust_native_webview::resource_handler::{ResponseSlot, ResponseState};

fn answered(status: i32, mime: &str, body: &[u8]) -> ResponseContext {
    let mut ctx = ResponseContext::new();
    ctx.write(status, Some(mime.as_bytes()), body.to_vec());
    ctx
}

#[test]
fn constants_have_their_c_values() {
    assert_eq!(RNW_ERROR, -1);
    assert_eq!(RNW_HANDLE_INVALID, 0);
}

#[test]
fn new_context_is_unanswered() {
    let ctx = ResponseContext::new();
    assert!(!ctx.was_set);
    assert_eq!(ctx.status_code, 0);
    assert!(ctx.mime_type.is_empty());
    assert!(ctx.data.is_empty());
}

#[test]
fn write_records_the_answer() {
    let ctx = answered(404, "text/html", b"<p>missing</p>");
    assert!(ctx.was_set);
    assert_eq!(ctx.status_code, 404);
    assert_eq!(ctx.mime_type, "text/html");
    assert_eq!(ctx.data, b"<p>missing</p>".to_vec());
}

#[test]
fn write_without_readable_mime_uses_octet_stream() {
    let mut ctx = ResponseContext::new();
    ctx.write(200, None, vec![1, 2, 3]);
    assert_eq!(ctx.mime_type, "application/octet-stream");
    let mut ctx2 = ResponseContext::new();
    ctx2.write(200, Some(&[0xff, 0xfe]), Vec::new());
    assert_eq!(ctx2.mime_type, "application/octet-stream");
    assert_eq!(response_mime_type(Some(b"image/png")), "image/png");
}

#[test]
fn body_length_needs_pointer_and_positive_length() {
    assert_eq!(response_body_len(true, 5), 5);
    assert_eq!(response_body_len(false, 5), 0);
    assert_eq!(response_body_len(true, 0), 0);
    assert_eq!(response_body_len(true, -3), 0);
}

#[test]
fn reads_deliver_the_body_in_order_then_end() {
    let mut state = ResponseState::from_context(answered(200, "text/plain", b"hello world"));
    let h = state.header_values();
    assert_eq!(h.status_code, 200);
    assert_eq!(h.mime_type, "text/plain");
    assert_eq!(h.content_length, 11);

    let mut got: Vec<u8> = Vec::new();
    let a = state.read(4);
    assert_eq!((a.status, a.bytes_read), (1, 4));
    got.extend_from_slice(&a.bytes);
    let b = state.read(4);
    assert_eq!((b.status, b.bytes_read), (1, 4));
    got.extend_from_slice(&b.bytes);
    let c = state.read(4);
    assert_eq!((c.status, c.bytes_read), (1, 3));
    got.extend_from_slice(&c.bytes);
    assert_eq!(got, b"hello world".to_vec());
    let d = state.read(4);
    assert_eq!((d.status, d.bytes_read), (0, 0));
    assert!(d.bytes.is_empty());
}

#[test]
fn negative_request_reads_everything_left() {
    let mut state = ResponseState::from_context(answered(200, "a/b", b"abcdef"));
    let a = state.read(2);
    assert_eq!(a.bytes, b"ab".to_vec());
    let b = state.read(-1);
    assert_eq!((b.status, b.bytes_read), (1, 4));
    assert_eq!(b.bytes, b"cdef".to_vec());
    assert_eq!(state.read(-1).status, 0);
}

#[test]
fn zero_byte_request_delivers_nothing_but_continues() {
    let mut state = ResponseState::from_context(answered(200, "a/b", b"xy"));
    let a = state.read(0);
    assert_eq!((a.status, a.bytes_read), (1, 0));
    assert_eq!(state.read(10).bytes, b"xy".to_vec());
}

#[test]
fn empty_body_ends_at_once() {
    let mut state = ResponseState::from_context(answered(204, "a/b", b""));
    assert_eq!(state.header_values().content_length, 0);
    let a = state.read(16);
    assert_eq!((a.status, a.bytes_read), (0, 0));
}

#[test]
fn slot_serves_its_answer_once() {
    let mut slot = ResponseSlot::new(answered(201, "text/css", b"body{}"));
    let first = slot.take_handler();
    assert!(first.is_some());
    let mut reader = first.unwrap();
    assert_eq!(reader.header_values().status_code, 201);
    assert_eq!(reader.read(100).bytes, b"body{}".to_vec());
    assert!(slot.take_handler().is_none());
    assert!(slot.take_handler().is_none());
}

#[test]
fn view_rect_is_at_least_one_pixel() {
    let r = view_rect(800, 600);
    assert_eq!(r, Rect { x: 0, y: 0, width: 800, height: 600 });
    let r = view_rect(0, -5);
    assert_eq!(r, Rect { x: 0, y: 0, width: 1, height: 1 });
    let r = view_rect(1, 1);
    assert_eq!(r, Rect { x: 0, y: 0, width: 1, height: 1 });
}

#[test]
fn dirty_rects_flatten_four_per_rect() {
    let rects = [
        Rect { x: 1, y: 2, width: 3, height: 4 },
        Rect { x: -5, y: 6, width: 70, height: 80 },
    ];
    assert_eq!(flatten_dirty_rects(&rects), vec![1, 2, 3, 4, -5, 6, 70, 80]);
    assert_eq!(dirty_count(&rects), 2);
    assert!(flatten_dirty_rects(&[]).is_empty());
    assert_eq!(dirty_count(&[]), 0);
}

#[test]
fn file_urls_are_refused() {
    assert!(is_file_url("file:///etc/passwd"));
    assert!(is_file_url("file://"));
    assert!(!is_file_url("file:/x"));
    assert!(!is_file_url("FILE:///x"));
    assert!(!is_file_url("res://app/index.html"));
    assert!(!is_file_url(""));
    assert_eq!(route_resource_request("file:///tmp/x"), ResourceRoute::DenyFile);
    assert_eq!(route_resource_request("https://example.com/"), ResourceRoute::AskHost);
}

#[test]
fn host_reply_decides_serving() {
    let set = answered(200, "a/b", b"x");
    let unset = ResponseContext::new();
    assert_eq!(interpret_host_reply(1, &set), HostReply::Serve);
    assert_eq!(interpret_host_reply(-7, &set), HostReply::Serve);
    assert_eq!(interpret_host_reply(1, &unset), HostReply::Unanswered);
    assert_eq!(interpret_host_reply(0, &set), HostReply::Declined);
    assert_eq!(interpret_host_reply(0, &unset), HostReply::Declined);
}

#[test]
fn default_handling_switched_off_for_refusals_and_served_answers() {
    assert!(disables_default_handling(ResourceRoute::DenyFile, None));
    assert!(disables_default_handling(ResourceRoute::AskHost, Some(HostReply::Serve)));
    assert!(!disables_default_handling(ResourceRoute::AskHost, Some(HostReply::Unanswered)));
    assert!(!disables_default_handling(ResourceRoute::AskHost, Some(HostReply::Declined)));
    assert!(!disables_default_handling(ResourceRoute::AskHost, None));
}

#[test]
fn key_event_struct_holds_its_fields() {
    let e = RnwKeyEvent {
        event_type: 2,
        windows_key_code: 65,
        native_key_code: 30,
        character: 97,
        unmodified_character: 97,
        modifiers: 4,
        is_system_key: 0,
    };
    let copy = e;
    assert_eq!(copy, e);
}
