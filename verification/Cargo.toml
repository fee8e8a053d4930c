[package]
name = "termwindow"
version = "0.1.0"
edition = "2021"
publish = false

[dependencies]
anyhow = "=1.0.104"
euclid = "=0.22.14"
log = "=0.4.34"
metrics = "=0.24.6"
smol = "=2.0.2"
smithay-client-toolkit = { version = "=0.19.2", default-features = false }
wayland-client = "=0.31.15"
wayland-protocols = { version = "=0.32.13", features = ["client", "staging", "unstable"] }
wayland-protocols-plasma = { version = "=0.3.12", features = ["client"] }
