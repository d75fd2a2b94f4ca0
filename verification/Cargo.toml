[package]
name = "spotibar"
version = "0.1.0"
edition = "2021"
publish = false

[dependencies]
clap = { version = "*", features = ["derive"] }
dbus = "*"

[dev-dependencies]
serde_json = "*"
