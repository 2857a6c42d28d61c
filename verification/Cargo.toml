[package]
name = "mewkernel"
version = "0.1.0"
edition = "2021"
publish = false

[dependencies]
ringbuf = { version = "0.3", default-features = false }
