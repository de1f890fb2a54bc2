[package]
name = "keisen"
version = "0.1.0"
edition = "2021"
publish = false

[dependencies]
image = { version = "*", default-features = false, features = ["png"] }
windows = { version = "*", features = ["Win32_Foundation", "Win32_Security", "Win32_System_Threading", "Win32_UI_Input_KeyboardAndMouse", "Win32_UI_WindowsAndMessaging"] }
eframe = { version = "*", default-features = false, features = ["glow", "x11"] }
tray-icon = "*"
raw-window-handle = "*"
