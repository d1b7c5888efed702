[package]
name = "focal"
version = "0.1.0"
edition = "2021"
publish = false

[dependencies]
clap = { version = "*", features = ["derive"] }
clap_complete = "*"
serde = { version = "*", features = ["derive"] }
serde_json = "*"
chrono = "*"
dirs = "*"
execute = "*"
which = "*"
ctrlc = "*"
notify-rust = "*"
niri-ipc = "*"
