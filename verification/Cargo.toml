[package]
name = "pololu3pi2040-rs"
version = "0.1.0"
edition = "2021"
publish = false

[dependencies]
embassy-executor = { version = "=0.9.1", features = ["arch-std", "executor-thread"] }
embassy-futures = "=0.1.2"
embassy-sync = { version = "=0.7.2", features = ["std"] }
embassy-time = { version = "=0.5.1", features = ["std"] }
embedded-hal = "=1.0.0"
embedded-hal-bus = "=0.3.0"
embedded-sdmmc = "=0.8.2"
heapless = "=0.8.0"
libm = "=0.2.16"
portable-atomic = "=1.15.0"
static_cell = "=2.1.1"
