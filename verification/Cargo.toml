[package]
name = "smithay"
version = "0.3.0"
edition = "2021"
publish = false

[dependencies]
ash = "=0.38.0"
bytemuck = "=1.25.2"
calloop = "=0.13.0"
cgmath = "=0.18.0"
drm = "*"
drm-fourcc = "=2.2.0"
indexmap = "=2.14.2"
libc = "=0.2.191"
nix = "=0.26.4"
pixman = { version = "=0.2.1", features = ["drm-fourcc"] }
smallvec = "=1.16.4"
thiserror = "=1.0.69"
