[package]
name = "proxmox-fuse"
version = "0.3.0"
edition = "2021"
publish = false

[dependencies]
anyhow = "1"
futures = "0.3"
libc = "0.2"
tokio = { version = "1", features = ["net", "rt", "rt-multi-thread"] }
