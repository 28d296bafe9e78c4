[package]
name = "rust-clipboard-uploader"
version = "0.6.0"
edition = "2021"
publish = false

[dependencies]
anyhow = "1"
arboard = "3"
chrono = { version = "0.4", default-features = false, features = ["clock"] }
directories = "6"
eframe = { version = "0.30", default-features = false, features = ["default_fonts", "glow", "x11"] }
egui = { version = "0.30", default-features = false }
fs2 = "0.4"
global-hotkey = "0.6"
image = { version = "0.25", default-features = false, features = ["png"] }
libc = "0.2"
reqwest = { version = "0.12", default-features = false, features = ["blocking", "multipart", "rustls-tls"] }
rusqlite = { version = "0.32", features = ["bundled"] }
serde = { version = "1", features = ["derive"] }
serde_json = "1"
serde_yaml = "0.9"
