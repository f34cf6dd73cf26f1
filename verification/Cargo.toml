[package]
name = "stm32l0_pwm"
version = "0.1.0"
edition = "2021"
publish = false

[dependencies]
cast = { version = "0.2", default-features = false }
cortex-m = "0.7"
embedded-hal = { version = "0.2", features = ["unproven"] }
