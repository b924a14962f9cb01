[package]
name = "arcade_sprig"
version = "0.1.0"
edition = "2021"
publish = false

[dependencies]
chrono = { version = "=0.4.45", default-features = false }
embassy-sync = "=0.8.0"
micromath = "=2.1.0"
serde = { version = "=1.0.229", default-features = false, features = ["derive"] }
serde-json-core = "=0.7.0"
log = "=0.4.34"
embassy-time = "=0.5.1"
embassy-futures = "=0.1.2"
embassy-executor = "=0.10.0"
embassy-rp = "=0.10.0"
embassy-net = { version = "=0.9.1", features = ["tcp", "dns", "dhcpv4", "proto-ipv4", "medium-ethernet"] }
embassy-embedded-hal = "=0.6.0"
embassy-usb-logger = "=0.6.0"
cyw43 = "=0.7.0"
cyw43-pio = "=0.10.0"
embedded-graphics = "=0.8.2"
embedded-graphics-framebuf = "=0.5.0"
tinytga = "=0.5.0"
st7735-lcd = "=0.10.0"
reqwless = "=0.14.0"
static_cell = "=2.1.1"
defmt = "=1.2.0"
defmt-rtt = "=1.3.1"
panic-probe = "=1.0.0"
