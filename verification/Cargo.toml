[package]
name = "ultrasonic"
version = "0.1.0"
edition = "2021"
publish = false

[dependencies]
cortex-m = "0.6"
cortex-m-rt = "0.6"
embedded-hal = "0.2"
micromath = "1"
num-complex = { version = "0.3", default-features = false }
panic-reset = "0.1"
stm32f3-discovery = "0.6"
