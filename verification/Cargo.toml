[package]
name = "tauri_ts_generator"
version = "0.1.0"
edition = "2021"
publish = false

[dependencies]
anyhow = "1"
serde = { version = "1", features = ["derive"] }
syn = { version = "2", default-features = false, features = ["full", "parsing", "extra-traits", "clone-impls"] }
toml = "0.8"
walkdir = "2"
