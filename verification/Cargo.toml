[package]
name = "zerocopy_buf"
version = "0.1.0"
edition = "2021"
publish = false

[dependencies]
bytes = "1"
zerocopy = "0.8"
