[package]
name = "board_core"
version = "0.1.0"
edition = "2021"
publish = false

[dependencies]
alloc-cortex-m = "0.4"
cortex-m = "=0.5.11"
cortex-m-rt = "=0.5.7"
cortex-m-semihosting = "=0.3.7"
stm32f7 = { version = "=0.3.2", features = ["stm32f7x6", "rt"] }
