[package]
name = "light_drive"
version = "0.1.0"
edition = "2021"
publish = false

[dependencies]
cortex-m = "=0.7.10"
cortex-m-rt = "=0.7.7"
defmt-rtt = "=1.3.1"
embedded-hal = "=1.0.0"
microbit = { version = "=0.14.0", features = ["embedded-hal-02"] }
panic-halt = "=1.0.0"

[dev-dependencies]
tiny-led-matrix = "=1.0.2"
