[package]
name = "mouse_recorder"
version = "0.1.0"
edition = "2021"
publish = false

[dependencies]
anyhow = "1"
base64 = "0.22"
iced = { version = "0.14", default-features = false, features = ["tiny-skia", "tokio", "image", "x11"] }
image = { version = "0.25", default-features = false, features = ["png"] }
rustautogui = "2.5"
serde = { version = "1", features = ["derive"] }
serde_yaml = "0.9"
windows = { version = "0.52", features = ["Win32_Foundation", "Win32_Graphics_Gdi", "Win32_UI_Input_KeyboardAndMouse", "Win32_UI_WindowsAndMessaging"] }
