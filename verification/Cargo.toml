[package]
name = "uart_interrupt"
version = "0.1.0"
edition = "2021"
publish = false

[dependencies]
cortex-m = "=0.7.10"
cortex-m-rt = "=0.7.7"
critical-section = "=1.2.0"
embedded-hal = "=0.2.7"
fugit = "=0.3.9"
panic-halt = "=0.2.0"
rp2040-hal = { version = "=0.9.2", features = ["rt", "critical-section-impl"] }
rp-pico = "=0.8.0"
