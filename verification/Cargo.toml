[package]
name = "vmm_models"
version = "0.1.0"
edition = "2021"
publish = false

[dependencies]
anyhow = "=1.0.104"
epoll = "=4.4.0"
libc = "=0.2.191"
log = "=0.4.35"
seccompiler = "=0.5.0"
serde = { version = "=1.0.229", features = ["derive"] }
thiserror = "=2.0.21"
virtio-queue = "=0.18.0"
vm-memory = { version = "=0.18.0", features = ["backend-mmap", "backend-atomic"] }
vmm-sys-util = "=0.15.0"
