[package]
name = "vga_buffer"
version = "0.1.0"
edition = "2021"
publish = false

[dependencies]
volatile = "0.2"
spin = "0.9"
lazy_static = { version = "1", features = ["spin_no_std"] }
x86_64 = { version = "0.15", default-features = false, features = ["instructions"] }
