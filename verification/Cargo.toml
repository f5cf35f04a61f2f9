[package]
name = "libffi_build"
version = "0.1.0"
edition = "2021"
publish = false

[dependencies]
make-cmd = "0.1"
