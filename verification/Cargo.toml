[package]
name = "socket_proxy"
version = "0.1.0"
edition = "2021"
publish = false

[dependencies]
bytes = "1"
clap = "2.33"
env_logger = "0.9"
libc = "0.2"
log = "0.4"
nix = "0.22"
tokio = { version = "1", features = ["io-util", "macros", "net", "rt-multi-thread", "time"] }
