[package]
name = "data_device"
version = "0.1.0"
edition = "2021"
publish = false

[dependencies]
wayland-server = "0.31"
thiserror = "1"
