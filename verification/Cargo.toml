[package]
name = "offscreen_runtime"
version = "0.1.0"
edition = "2021"
publish = false

[dependencies]
cef = { version = "=156.3.0", default-features = false, features = ["dox"] }
log = "=0.4.35"
raw-window-handle = "=0.6.2"
softbuffer = { version = "=0.4.8", default-features = false, features = ["x11", "x11-dlopen"] }
tauri-utils = { version = "=2.10.2", default-features = false }
winit = { version = "=0.31.0-beta.4", default-features = false, features = ["x11"] }
windows = { version = "=0.61.3", features = [
  "Win32_Foundation",
  "Win32_Graphics_Dwm",
  "Win32_Graphics_Gdi",
  "Win32_System_Com",
  "Win32_UI_Input_Ime",
  "Win32_UI_Input_KeyboardAndMouse",
  "Win32_UI_Shell",
  "Win32_UI_WindowsAndMessaging",
] }
