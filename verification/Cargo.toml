[package]
name = "async_uring"
version = "0.1.0"
edition = "2021"
publish = false

[dependencies]
concurrent-queue = "*"
io-uring = "*"
async-io = "*"
async-task = "*"
atomic-waker = "*"
cache-padded = "*"
futures-lite = "*"
libc = "*"
scoped-tls = "*"
