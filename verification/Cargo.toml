[package]
name = "krunvm"
version = "0.1.0"
edition = "2021"
publish = false

[dependencies]
clap = { version = "4", features = ["derive"] }
confy = "0.4"
serde = { version = "1", features = ["derive"] }
serde_derive = "1"
libc = "0.2"
nix = { version = "*", features = ["process"] }
text_io = "0.1"
