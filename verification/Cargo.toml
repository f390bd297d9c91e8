[package]
name = "wifi_handler"
version = "0.1.0"
edition = "2021"
publish = false

[dependencies]
embassy-executor = { version = "*", features = ["arch-std", "executor-thread"] }
static_cell = "*"
log = "0.4"
