[package]
name = "wayland_frontend"
version = "0.1.0"
edition = "2021"
publish = false

[dependencies]
skylane = "=0.1.2"
uinput-sys = "*"
