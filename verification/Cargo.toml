[package]
name = "pico_env_sensor"
version = "0.1.0"
edition = "2021"
publish = false

[dependencies]
circular-buffer = "=1.2.1"
heapless = "=0.9.3"
itertools = "=0.15.0"
num-traits = "=0.2.19"
embedded-graphics = "=0.8.2"
embedded-graphics-framebuf = "=0.5.0"
display-interface-spi = "=0.5.0"
ssd1351 = "=0.5.0"
scd4x = { version = "=0.5.0", features = ["scd41"] }
embassy-embedded-hal = "=0.6.0"
embassy-executor = "=0.9.1"
embassy-sync = "=0.8.0"
embassy-time = "=0.5.1"
rtt-target = "=0.6.2"
static_cell = "=2.1.1"
