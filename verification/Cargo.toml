[package]
name = "xue_hua_app_badge"
version = "0.1.0"
edition = "2021"
publish = false

[dependencies]
zbus = "5"
windows = { version = "0.62", features = ["Win32_Foundation", "Win32_Graphics_Gdi", "Win32_System_Com", "Win32_UI_HiDpi", "Win32_UI_Input_KeyboardAndMouse", "Win32_UI_Shell", "Win32_UI_WindowsAndMessaging"] }
objc2 = "0.6"
objc2-foundation = "0.3"
objc2-app-kit = "0.3"
objc2-ui-kit = "0.3"
objc2-user-notifications = "0.3"
dispatch2 = "0.3"
block2 = "0.6"
core-foundation = "0.10"
jni = "*"
ndk-context = "0.1"
flutter_rust_bridge = "2"
