[package]
name = "triangle_blink"
version = "0.1.0"
edition = "2021"
publish = false

[dependencies]
cortex-m = "=0.7.10"
rtic = { version = "=2.4.0", features = ["thumbv7-backend"] }
teensy4-bsp = { version = "=0.5.2", features = ["rt"] }
teensy4-panic = { version = "=0.2.3", default-features = false }
