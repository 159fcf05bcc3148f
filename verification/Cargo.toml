[package]
name = "aht20"
version = "0.1.0"
edition = "2021"
publish = false

[dependencies]
embassy-stm32 = { version = "*", features = ["stm32f411ce"] }
embassy-time = "*"
