[package]
name = "color_clicker"
version = "0.1.0"
edition = "2021"
publish = false

[dependencies]
image = { version = "=0.25.10", default-features = false, features = ["png"] }
enigo = { version = "=0.2.1", default-features = false, features = ["x11rb"] }
x11 = { version = "=2.21.0", features = ["xlib"] }
windows = { version = "=0.56.0", features = ["Win32_Foundation", "Win32_UI_WindowsAndMessaging"] }
serde = { version = "=1.0.229", features = ["derive"] }
serde_json = "=1.0.154"
env_logger = { version = "=0.11.11", default-features = false }
