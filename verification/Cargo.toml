[package]
name = "sfy_buoy"
version = "0.1.0"
edition = "2021"
publish = false

[dependencies]
heapless = "=0.7.17"
embedded-sdmmc = { version = "=0.7.0", default-features = false }
embedded-hal = "=1.0.0"
postcard = { version = "=1.1.3", default-features = false, features = ["heapless"] }
serde = { version = "=1.0.229", default-features = false, features = ["derive"] }
cortex-m = "=0.7.10"
blues-notecard = "=0.5.0"
