[package]
name = "paber"
version = "0.1.0"
edition = "2021"
publish = false

[dependencies]
anyhow = "*"
base64 = "*"
clap = { version = "*", features = ["derive"] }
image = { version = "*", default-features = false, features = ["png", "jpeg", "gif", "webp", "bmp"] }
nix = { version = "*", features = ["fs", "mman"] }
reqwest = { version = "*", default-features = false, features = ["blocking", "json", "rustls-tls"] }
serde = { version = "*", features = ["derive"] }
serde_json = "*"
wayland-client = "*"
wayland-protocols-wlr = { version = "*", features = ["client"] }
