[package]
name = "mttn"
version = "0.1.0"
edition = "2021"
publish = false

[dependencies]
anyhow = "1"
clap = "2"
env_logger = "*"
iced-x86 = "1"
libc = "0.2"
log = "0.4"
nix = "0.19"
rangemap = "*"
rsprocmaps = "*"
serde = { version = "1", features = ["derive"] }
serde_json = "1"
spawn-ptrace = "*"
