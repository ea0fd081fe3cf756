[package]
name = "kicad_gtm"
version = "0.1.0"
edition = "2021"
publish = false

[dependencies]
active-win-pos-rs = "*"
anyhow = "*"
chrono = "*"
clap = { version = "*", features = ["derive"] }
env_logger = "*"
home = "*"
log = "*"
notify = "*"
rust-ini = "*"
zip = { version = "*", default-features = false, features = ["deflate"] }
