[package]
name = "rstroller"
version = "0.1.0"
edition = "2021"
publish = false

[dependencies]
anyhow = "1"
async-channel = "2"
glib = "0.20"
gtk4 = "0.9"
image = { version = "0.24", default-features = false, features = ["png", "jpeg"] }
itertools = "0.13"
mpris = "2"
notify = "6"
once_cell = "1"
reqwest = { version = "0.12", features = ["blocking"] }
serde_json = "1"
tokio = { version = "1", features = ["rt", "sync", "macros", "time"] }
urlencoding = "2"
