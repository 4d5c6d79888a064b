[package]
name = "stm32g0_ll_drivers"
version = "0.1.0"
edition = "2021"
publish = false

[dependencies]
stm32g0 = { version = "*", features = ["stm32g0b1"] }
