[package]
name = "darvos"
version = "0.1.0"
edition = "2021"
publish = false

[dependencies]
evdev = "*"
futures = "0.3"
nix = { version = "*", features = ["user"] }
openrgb2 = "*"
tokio = { version = "1", features = ["rt-multi-thread", "macros", "time"] }
