[package]
name = "compass"
version = "0.1.0"
edition = "2021"
publish = false

[dependencies]
anyhow = "1"
bitcode = "0.6"
chrono = "0.4"
globset = "0.4"
nvim-oxi = { version = "0.5", features = ["neovim-0-10"] }
serde = { version = "1", features = ["derive"] }
serde_json = "1"
strum = { version = "0.26", features = ["derive"] }
thiserror = "1"
