[package]
name = "cargo_upgrade"
version = "0.1.0"
edition = "2021"
publish = false

[dependencies]
toml_edit = "=0.25.15"
clap = { version = "*", features = ["derive"] }
crates-io = "=0.40.19"
curl = "*"
indicatif = "*"
iocore = "*"
serde = { version = "*", features = ["derive"] }
toml = "*"
dumbeq = "*"
