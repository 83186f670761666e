[package]
name = "tindeq"
version = "0.1.0"
edition = "2021"
publish = false

[dependencies]
arrayvec = "=0.7.8"
bytemuck = "=1.25.2"
bytemuck_derive = "=1.12.1"
critical-section = { version = "=1.2.0", features = ["std"] }
defmt = "=0.3.101"
embassy-executor = "=0.7.0"
embassy-sync = "=0.6.2"
embassy-time = "=0.4.0"
embedded-hal = "=1.0.0"
esp-alloc = "=0.6.0"
esp-backtrace = { version = "=0.15.1", features = ["esp32c6", "panic-handler", "println"] }
esp-hal = { version = "=0.23.1", features = ["esp32c6"] }
esp-hal-embassy = { version = "=0.6.0", features = ["esp32c6"] }
esp-println = { version = "=0.13.1", features = ["esp32c6"] }
esp-wifi = { version = "=0.12.0", features = ["esp32c6", "ble"] }
static_cell = "=2.1.1"
