[package]
name = "kawa"
version = "0.1.0"
edition = "2021"
publish = false

[dependencies]
numtoa = "0.2"
heapless = "0.8"
midi-port = "0.1"
embedded-graphics = "0.6"
embedded-hal = "0.2"
cortex-m = "0.7"
cortex-m-rt = "0.6"
micromath = "2"
stm32f4xx-hal = { version = "0.9", features = ["stm32f407", "rt"] }
st7920 = "0.2"
alloc-cortex-m = "0.4"
panic-halt = "0.2"
cty = "0.2"
