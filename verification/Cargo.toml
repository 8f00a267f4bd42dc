[package]
name = "anchor-wl-clipboard"
version = "0.1.0"
edition = "2021"
publish = false

[dependencies]
log = "0.4"
os_pipe = "1"
wayland-client = "0.31"
wayland-protocols-wlr = { version = "0.3", features = ["client"] }
wl-clipboard-rs = "0.9"
x11-clipboard = "0.9"
