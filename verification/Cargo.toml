[package]
name = "softnpu"
version = "0.1.0"
edition = "2021"
publish = false

[dependencies]
anyhow = "*"
camino = "*"
clap = { version = "*", features = ["derive"] }
curl = "*"
devinfo = "*"
flate2 = "*"
fs_extra = "*"
indicatif = "*"
libc = "*"
libloading = "*"
octocrab = "*"
serde = { version = "*", features = ["derive"] }
serde_json = "*"
sha256 = "*"
slog = "*"
slog-async = "*"
slog-envlogger = "*"
slog-term = "*"
smf = "*"
tar = "*"
tempfile = "*"
thiserror = "*"
tokio = { version = "*", features = ["full"] }
toml = "*"
zone = "*"
