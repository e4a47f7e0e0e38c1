[package]
name = "tock_async"
version = "0.1.0"
edition = "2021"
publish = false

[dependencies]
portable-atomic = "1"
embassy-time-queue-utils = { version = "*", features = ["generic-queue-8"] }
embassy-time-driver = "*"
embassy-sync = "*"
embassy-futures = "*"
critical-section = { version = "1", features = ["std"] }
once_cell = "1"
