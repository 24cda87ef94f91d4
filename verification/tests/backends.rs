use robust_native_webview::backend::{
    initial_navigation, navigation_policy, BackendState, InitStep, NavigationPolicy,
};
use robust_native_webview::webview_linux;
use robust_native_webview::webview_mac;
use robust_native_webview::webview_win::{
    content_type_header, placed_bounds, size_bounds, InstanceSet, ReadyWait, WinRect,
};

#[test]
fn linux_backend_is_a_stub() {
    assert_eq!(webview_linux::init(), -1);
    webview_linux::pump();
    webview_linux::shutdown();
    assert_eq!(webview_linux::create(42, Some(b"https://a/")), 0);
    assert!(!webview_linux::can_go_back(42));
    assert!(!webview_linux::can_go_forward(42));
    assert!(!webview_linux::is_loading(42));
    webview_linux::set_scheme_handler::<u8>(None, 0);
}

#[test]
fn mac_pump_does_nothing() {
    webview_mac::pump();
}

#[test]
fn backend_init_is_idempotent() {
    let mut b: BackendState<u8, u16> = BackendState::new();
    assert!(!b.is_initialized());
    assert_eq!(b.begin_init(), InitStep::SetUp);
    assert_eq!(b.finish_init(false), -1);
    assert!(!b.is_initialized());
    assert_eq!(b.finish_init(true), 0);
    assert!(b.is_initialized());
    assert_eq!(b.begin_init(), InitStep::AlreadyInitialized);
}

#[test]
fn backend_callbacks_and_shutdown() {
    let mut b: BackendState<u8, u16> = BackendState::new();
    b.set_scheme_handler(Some(7), 100);
    b.set_scheme_handler(None, 200);
    assert_eq!(b.scheme_handler(), Some((7, 100)));
    b.set_before_browse_handler(Some(9), 300);
    assert_eq!(b.before_browse_handler(), Some((9, 300)));
    b.finish_init(true);
    assert!(b.may_create(1234));
    assert!(!b.may_create(0));
    b.shutdown();
    assert!(!b.is_initialized());
    assert!(!b.may_create(1234));
    assert_eq!(b.scheme_handler(), None);
    assert_eq!(b.before_browse_handler(), None);
}

#[test]
fn navigation_starts_only_for_nonempty_urls() {
    assert_eq!(initial_navigation(Some(b"https://a/")), Some("https://a/".to_string()));
    assert_eq!(initial_navigation(Some(b"")), None);
    assert_eq!(initial_navigation(None), None);
    assert_eq!(initial_navigation(Some(&[0xff])), None);
}

#[test]
fn navigation_policy_cancels_on_nonzero() {
    assert_eq!(navigation_policy(None), NavigationPolicy::Allow);
    assert_eq!(navigation_policy(Some(0)), NavigationPolicy::Allow);
    assert_eq!(navigation_policy(Some(1)), NavigationPolicy::Cancel);
    assert_eq!(navigation_policy(Some(-2)), NavigationPolicy::Cancel);
}

#[test]
fn windows_bounds() {
    assert_eq!(size_bounds(300, 200), WinRect { left: 0, top: 0, right: 300, bottom: 200 });
    assert_eq!(placed_bounds(10, 20, 300, 200), WinRect { left: 10, top: 20, right: 310, bottom: 220 });
}

#[test]
fn content_type_header_names_the_mime_type() {
    assert_eq!(content_type_header(Some(b"text/html")), "Content-Type: text/html");
    assert_eq!(content_type_header(None), "Content-Type: application/octet-stream");
}

#[test]
fn ready_wait_gives_up_after_timeout() {
    let mut w = ReadyWait::new(3);
    let mut idle = 0;
    while w.keep_waiting(false) {
        w.note_idle_turn();
        idle += 1;
    }
    assert_eq!(idle, 3);
    let w2 = ReadyWait::new(3);
    assert!(!w2.keep_waiting(true));
}

#[test]
fn instances_tracked_only_while_up() {
    let mut s = InstanceSet::new();
    s.record(5);
    s.start();
    s.record(7);
    s.record(8);
    s.forget(7);
    s.clear();
    s.record(9);
}
