[package]
name = "panel_lamp"
version = "0.1.0"
edition = "2021"
publish = false

[dependencies]
embassy-sync = "=0.6.2"
smart-leds = "=0.4.0"
embedded-graphics = "=0.8.2"
embedded-graphics-core = "=0.4.1"
embassy-executor = "=0.5.1"
embassy-time = "=0.3.2"
embedded-hal = "=1.0.0"
embedded-hal-bus = "=0.2.0"
display-interface-spi = "=0.5.0"
mipidsi = "=0.8.0"
esp-alloc = "=0.4.0"
esp-backtrace = { version = "=0.13.0", features = ["esp32c6"] }
esp-println = { version = "=0.10.0", features = ["esp32c6"] }

[dev-dependencies]
critical-section = { version = "=1.2.0", features = ["std"] }
