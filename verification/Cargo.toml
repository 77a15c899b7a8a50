[package]
name = "zundux_tts"
version = "0.1.0"
edition = "2021"
publish = false

[dependencies]
url = "2"
shell-words = "1"
anyhow = "1"
serde = { version = "1", features = ["derive"] }
serde_json = "1"
toml = "0.8"
tracing = "0.1"
tracing-subscriber = "0.3"
directories = "6"
libc = "0.2"
ctrlc = "3"
async-trait = "0.1"
tokio = { version = "1", features = ["rt-multi-thread", "macros"] }
reqwest = { version = "0.12", default-features = false, features = ["json", "rustls-tls"] }
image = { version = "0.25", default-features = false, features = ["png"] }
egui = "0.31"
eframe = { version = "0.31", default-features = false, features = ["glow", "x11", "default_fonts"] }
