[package]
name = "intel_mac_parity"
version = "0.1.0"
edition = "2021"
publish = false

[dependencies]
core_affinity = "=0.8.3"
libc = "=0.2.191"
openvino = { version = "=0.6.0", features = ["runtime-linking"] }
rayon = "=1.12.0"
wgpu = "=22.1.0"
wide = "=0.7.33"
