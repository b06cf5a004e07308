[package]
name = "eth_driver"
version = "0.1.0"
edition = "2021"
publish = false

[dependencies]
heapless = "=0.8.0"
cortex-m = "=0.7.10"
cortex-m-rt = "=0.7.7"
cortex-m-semihosting = "=0.6.0"
stm32f429x = "=0.2.0"
