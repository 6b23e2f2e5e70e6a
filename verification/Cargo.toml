[package]
name = "libdaisy"
version = "0.1.0"
edition = "2021"
publish = false

[dependencies]
embedded-hal = { version = "0.2", features = ["unproven"] }
stm32h7xx-hal = { version = "*", features = ["stm32h750v"] }
