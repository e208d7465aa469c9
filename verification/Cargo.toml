[package]
name = "reimv"
version = "0.1.0"
edition = "2021"
publish = false

[dependencies]
anyhow = "=1.0.104"
clap = { version = "=4.6.7", features = ["derive"] }
image = { version = "=0.24.9", default-features = false, features = ["png", "jpeg", "gif", "bmp"] }
libc = "=0.2.191"
resvg = "=0.35.0"
wayrs-client = "=1.3.1"
wayrs-protocols = { version = "=0.14.11", features = ["xdg-shell", "viewporter", "fractional-scale-v1", "xdg-decoration-unstable-v1", "pointer-gestures-unstable-v1", "single-pixel-buffer-v1"] }
wayrs-utils = { version = "=0.17.2", features = ["seats", "shm_alloc", "cursor", "keyboard"] }
