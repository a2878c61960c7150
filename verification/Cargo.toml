[package]
name = "cockroach_reminder"
version = "0.1.0"
edition = "2021"
publish = false

[dependencies]
rand = "=0.8.8"
image = { version = "=0.25.10", default-features = false, features = ["png"] }
smol = "=2.0.2"
smallvec = "=1.16.4"
raw-window-handle = "=0.6.2"
x11rb = { version = "=0.13.2", features = ["xinerama"] }
notify-rust = "=4.18.2"
windows-sys = { version = "=0.59.0", features = ["Win32_Foundation", "Win32_Graphics_Gdi", "Win32_UI_WindowsAndMessaging"] }
serde = { version = "1", features = ["derive"] }
serde_json = "1"
dirs = "6"
tray-icon = "0.21"
