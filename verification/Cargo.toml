[package]
name = "big-button"
version = "0.1.0"
edition = "2021"
publish = false

[dependencies]
heapless = "0.8"
embassy-time = "*"
embassy-sync = "*"
embassy-futures = "*"
embassy-executor = "*"
embassy-rp = { version = "*", features = ["rp235xa"] }
defmt = "*"
defmt-rtt = "*"
panic-probe = "*"
assign-resources = "*"
