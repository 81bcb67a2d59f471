[package]
name = "lpc82x_hal"
version = "0.1.0"
edition = "2021"
publish = false

[dependencies]
cortex-m = "=0.7.10"
embedded-hal = "=0.2.7"
nb = "=0.1.3"
void = "=1.0.2"
lpc82x-pac = "=0.8.1"
