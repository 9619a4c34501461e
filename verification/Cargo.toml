[package]
name = "xdp_hello"
version = "0.1.0"
edition = "2021"
publish = false

[dependencies]
network-types = "=0.0.4"
aya-ebpf = "=0.1.1"
aya-log-ebpf = "=0.1.0"
aya = "=0.13.1"
aya-log = "=0.2.1"
anyhow = "=1.0.104"
clap = { version = "=4.6.7", features = ["derive"] }
env_logger = "=0.11.11"
log = "=0.4.34"
tokio = { version = "=1.54.1", features = ["macros", "rt", "rt-multi-thread", "net", "signal"] }
