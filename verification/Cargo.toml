[package]
name = "compass_lsm303agr"
version = "0.1.0"
edition = "2021"
publish = false

[dependencies]
cortex-m = "0.6"
cortex-m-rt = "0.6"
lsm303agr = "0.2"
panic-itm = "0.4"
stm32f3-discovery = "0.6"
