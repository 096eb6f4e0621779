[package]
name = "tokio-rdma"
version = "0.1.0"
edition = "2021"
publish = false

[dependencies]
rdma-sys = "*"
libc = "0.2"
memmap2 = "0.9"
parking_lot = "0.12"
slab = "0.4"
socket2 = "0.5"
thiserror = "*"
tokio = { version = "1", features = ["full"] }
tracing = "0.1"
