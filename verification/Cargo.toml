[package]
name = "tree_lights"
version = "0.1.0"
edition = "2021"
publish = false

[dependencies]
defmt-rtt = "=1.3.0"
embassy-executor = { version = "=0.9.1", features = ["arch-std", "executor-thread"] }
embassy-rp = { version = "=0.10.0", features = ["rp2040"] }
embassy-time = "*"
panic-probe = "*"
smart-leds = "*"
