[package]
name = "pi_interactive"
version = "0.1.0"
edition = "2021"
publish = false

[dependencies]
asupersync = { version = "=0.2.9", default-features = false }
chrono = { version = "0.4", default-features = false, features = ["alloc", "now", "std"] }
serde_json = "1"
