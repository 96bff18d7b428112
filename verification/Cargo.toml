[package]
name = "alarm_panel"
version = "0.1.0"
edition = "2021"
publish = false

[dependencies]
cortex-m = "=0.7.9"
cortex-m-rt = "=0.7.7"
embedded-graphics = "=0.8.2"
embedded-hal = "=0.2.7"
fugit = "=0.3.9"
rp-pico = "=0.8.0"
ssd1306 = "=0.8.4"
