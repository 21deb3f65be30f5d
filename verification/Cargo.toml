[package]
name = "fs_explicit_io"
version = "0.1.0"
edition = "2021"
publish = false

[dependencies]
thiserror = "*"
