[package]
name = "keymap_detect"
version = "0.1.0"
edition = "2021"
publish = false

[dependencies]
log = "0.4"
wayland-client = "0.31"
