pub mod backend;
pub mod browser_api;
pub mod cef_schemes;
pub mod ffi_types;
pub mod render_handler;
pub mod request_handler;
pub mod resource_handler;
pub mod state;
pub mod text;
pub mod webview_linux;
pub mod webview_mac;
pub mod webview_win;
