# robust-native-webview

The logic of a native webview layer for an application host: a CEF-based off-screen
browser exposed through a C interface, and native WebKit/WebView2 backends.

- `src/` is the verified library (Verus): the browser-handle registry, the buffered
  resource reader, request routing (local files refused, host answers served once),
  argument decoding for the C interface, the URL-to-buffer copy, input-event
  conversion, CEF settings, the custom-scheme table, and the state of the native
  backends.
- `app/` is the C interface itself and its CEF, Objective-C and COM glue, which calls
  the library for every decision.
- `tests/` exercise the library on concrete values.
