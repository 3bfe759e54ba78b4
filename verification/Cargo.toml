[package]
name = "socktrace"
version = "0.1.0"
edition = "2021"
publish = false

[dependencies]
anyhow = "1"
clap = { version = "4", features = ["derive", "env"] }
libc = "0.2"
nix = { version = "0.30", features = ["process", "ptrace", "signal", "uio"] }
