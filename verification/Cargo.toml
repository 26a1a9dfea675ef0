[package]
name = "multiyt_dlp"
version = "0.1.0"
edition = "2021"
publish = false

[dependencies]
regex = "1"
serde = { version = "1", features = ["derive"] }
serde_json = "1"
uuid = { version = "1", features = ["v4", "serde"] }
tokio = { version = "1", features = ["full"] }
dirs = "5"
nix = { version = "0.27", features = ["signal"] }
once_cell = "1"
thiserror = "1"
tracing = "0.1"
tracing-appender = "0.2"
tracing-subscriber = { version = "0.3", features = ["env-filter", "json"] }
reqwest = { version = "0.11", features = ["json", "stream"] }
futures-util = "0.3"
async-trait = "0.1"
zip = { version = "0.6", default-features = false, features = ["deflate"] }
tar = "0.4"
xz2 = "0.1"
