[package]
name = "merge_tools"
version = "0.1.0"
edition = "2021"
publish = false

[dependencies]
config = { version = "0.13", default-features = false, features = ["toml"] }
serde = { version = "1", features = ["derive"] }
tempfile = "3"
thiserror = "1"
