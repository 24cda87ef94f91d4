use robust_native_webview::browser_api::{close_browser, finish_browser_create};
use robust_native_webview::ffi_types::RNW_HANDLE_INVALID;
use robust_native_webview::state::GlobalState;

#[test]
fn handles_start_at_one_and_increase() {
    let mut s: GlobalState<&str> = GlobalState::new();
    assert_eq!(s.next_handle(), 1);
    let a = s.insert_browser("a");
    let b = s.insert_browser("b");
    assert_eq!((a, b), (1, 2));
    assert_eq!(s.next_handle(), 3);
    assert_eq!(s.get_browser(a), Some(&"a"));
    assert_eq!(s.get_browser(b), Some(&"b"));
    assert_eq!(s.get_browser(RNW_HANDLE_INVALID), None);
    assert_eq!(s.get_browser(3), None);
}

#[test]
fn closed_handles_are_not_reused() {
    let mut s: GlobalState<u32> = GlobalState::new();
    let a = s.insert_browser(10);
    let b = s.insert_browser(20);
    assert_eq!(s.remove_browser(a), Some(10));
    assert_eq!(s.get_browser(a), None);
    assert_eq!(s.get_browser(b), Some(&20));
    assert_eq!(s.remove_browser(a), None);
    let c = s.insert_browser(30);
    assert_eq!(c, 3);
    assert_ne!(c, a);
}

#[test]
fn request_ids_are_fresh() {
    let mut s: GlobalState<u8> = GlobalState::new();
    assert_eq!(s.next_request_id(), 1);
    assert_eq!(s.alloc_request_id(), 1);
    assert_eq!(s.alloc_request_id(), 2);
    assert_eq!(s.next_request_id(), 3);
    assert!(s.pending_responses().is_empty());
    assert_eq!(s.next_handle(), 1);
}

#[test]
fn create_registers_only_when_initialized_and_created() {
    let mut state: Option<GlobalState<&str>> = Some(GlobalState::new());
    assert_eq!(finish_browser_create(&mut state, Some("x")), 1);
    assert_eq!(finish_browser_create(&mut state, None), RNW_HANDLE_INVALID);
    assert_eq!(finish_browser_create(&mut state, Some("y")), 2);
    let mut down: Option<GlobalState<&str>> = None;
    assert_eq!(finish_browser_create(&mut down, Some("z")), RNW_HANDLE_INVALID);
    assert!(down.is_none());
}

#[test]
fn close_takes_the_browser_out() {
    let mut state: Option<GlobalState<&str>> = Some(GlobalState::new());
    let h = finish_browser_create(&mut state, Some("x"));
    assert_eq!(close_browser(&mut state, h), Some("x"));
    assert_eq!(close_browser(&mut state, h), None);
    let mut down: Option<GlobalState<&str>> = None;
    assert_eq!(close_browser(&mut down, 1), None);
}
