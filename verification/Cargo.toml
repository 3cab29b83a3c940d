[package]
name = "rust_deej"
version = "0.1.0"
edition = "2021"
publish = false

[dependencies]
embedded-graphics = "0.8"
embedded-hal = "0.2.7"
enum_dispatch = "0.3"
esp-backtrace = { version = "0.13", features = ["esp32c3", "panic-handler", "exception-handler", "println"] }
esp-hal = { version = "0.16", features = ["esp32c3"] }
esp-println = { version = "0.10", features = ["esp32c3"] }
heapless = "0.8"
nb = "1"
rtic = { version = "2.1", features = ["riscv-esp32c3-backend"] }
ssd1306 = "0.8"
