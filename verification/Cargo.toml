[package]
name = "async_linux_spec_fd"
version = "0.1.0"
edition = "2021"
publish = false

[dependencies]
libc = "0.2"
arrayvec = "0.7"
tokio = { version = "1", features = ["rt", "net", "sync"] }
