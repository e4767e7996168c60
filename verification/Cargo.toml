[package]
name = "hx711"
version = "0.1.0"
edition = "2021"
publish = false

[dependencies]
defmt = "=1.2.0"
defmt-rtt = "=1.3.1"
embassy-executor = { version = "=0.9.1", features = ["arch-std", "executor-thread"] }
embassy-rp = { version = "=0.10.0", features = ["rp2040", "time-driver"] }
embassy-time = "=0.5.1"
panic-probe = "=1.0.0"
