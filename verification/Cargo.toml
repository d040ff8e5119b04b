[package]
name = "rdock"
version = "0.1.0"
edition = "2021"
publish = false

[dependencies]
anyhow = "=1.0.104"
env_logger = "=0.11.11"
ico = "=0.3.0"
image = { version = "=0.25.10", default-features = false, features = ["png", "jpeg", "ico", "bmp", "gif"] }
notify = "=6.1.1"
raw-window-handle = "=0.6.2"
serde = { version = "=1.0.229", features = ["derive"] }
shell-words = "=1.1.1"
softbuffer = "0.4"
toml = "=0.8.23"
windows = { version = "=0.58.0", features = ["Win32_Foundation", "Win32_Graphics_Gdi", "Win32_System_Com", "Win32_System_LibraryLoader", "Win32_System_ProcessStatus", "Win32_System_Threading", "Win32_UI_Input_KeyboardAndMouse", "Win32_UI_Shell", "Win32_UI_Shell_Common", "Win32_UI_WindowsAndMessaging"] }
winit = "=0.30.13"
