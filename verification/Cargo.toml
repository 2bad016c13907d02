[package]
name = "disk_patrol"
version = "0.1.0"
edition = "2021"
publish = false

[dependencies]
clap = "4"
serde = { version = "1", features = ["derive"] }
serde_json = "1"
toml = "0.8"
rand = { version = "0.8", features = ["small_rng"] }
tokio = { version = "1", features = ["full"] }
lettre = { version = "0.11", default-features = false, features = ["smtp-transport", "builder", "rustls-tls"] }
log = "0.4"
simple-logging = "2"
syslog = "6"
indicatif = "0.17"
libc = "0.2"
