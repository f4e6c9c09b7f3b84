[package]
name = "rgbcal"
version = "0.1.0"
edition = "2021"
publish = false

[dependencies]
embassy-executor = { version = "*", features = ["arch-std", "executor-thread"] }
embassy-futures = "=0.1.2"
embassy-sync = { version = "*", features = ["std"] }
embassy-time = "*"
microbit-bsp = "=0.3.0"
panic-rtt-target = "*"
rtt-target = "*"
