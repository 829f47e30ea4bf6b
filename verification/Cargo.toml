[package]
name = "zenoh_flow"
version = "0.1.0"
edition = "2021"
publish = false

[dependencies]
url = "=2.5.8"
libloading = "=0.7.4"
async-std = { version = "=1.13.2", features = ["unstable"] }
async-trait = "=0.1.92"
futures = "=0.3.34"
futures-lite = "=1.13.0"
log = "=0.4.34"
zenoh-util = "=1.10.1"
zenoh-sync = "=1.10.1"
serde = { version = "1", features = ["derive"] }
