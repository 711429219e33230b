[package]
name = "nydusd"
version = "0.1.0"
edition = "2021"
publish = false

[dependencies]
clap = "2.33"
config = "0.10"
epoll = "4"
libc = "0.2"
log = "0.4"
stderrlog = "0.4"
vm-memory = { version = "0.2", features = ["backend-mmap"] }
vmm-sys-util = "*"
