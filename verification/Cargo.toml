[package]
name = "charts_view"
version = "0.1.0"
edition = "2021"
publish = false

[dependencies]
anyhow = "1"
macroquad = { version = "0.4", default-features = false }
tokio = { version = "1", features = ["rt", "sync"] }
