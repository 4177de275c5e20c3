[package]
name = "blind_mover"
version = "0.1.0"
edition = "2021"
publish = false

[dependencies]
numtoa = "0.2"
nb = "1"
embedded-hal = "0.2"
cortex-m-rt = "*"
panic-halt = "*"
stm32f1xx-hal = { version = "0.7", features = ["stm32f103", "rt"] }
