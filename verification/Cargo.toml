[package]
name = "robust-native-webview"
version = "0.1.0"
edition = "2021"
publish = false

[dependencies]
cef = "*"
block2 = "*"
objc2 = "*"
objc2-app-kit = "*"
objc2-foundation = "*"
objc2-web-kit = "*"
webview2-com = "*"
windows = { version = "*", features = ["Win32_Foundation", "Win32_System_Com", "Win32_System_Com_StructuredStorage", "Win32_UI_WindowsAndMessaging"] }
