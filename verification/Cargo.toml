[package]
name = "rgba"
version = "0.1.0"
edition = "2021"
publish = false

[dependencies]
anyhow = "1"
clap = { version = "4", features = ["derive"] }
dirs = "5"
iced = { version = "0.13", default-features = false, features = ["tiny-skia"] }
iced_aw = { version = "0.11", default-features = false, features = ["menu"] }
serde = { version = "1", features = ["derive"] }
serde_json = "1"
