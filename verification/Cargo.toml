[package]
name = "cardgen"
version = "0.1.0"
edition = "2021"
publish = false

[dependencies]
anyhow = "*"
atty = "0.2"
cairo-rs = "*"
clap = { version = "*", features = ["derive"] }
pango = "*"
pangocairo = "*"
reqwest = { version = "*", default-features = false, features = ["blocking"] }
serde = { version = "*", features = ["derive"] }
serde_json = "*"
