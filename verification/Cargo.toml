[package]
name = "ratputer"
version = "0.1.0"
edition = "2021"
publish = false

[dependencies]
cardputer-adv-keyboard = "*"
embassy-futures = "*"
embassy-net = { version = "0.8", features = ["dhcpv4", "dns", "tcp", "udp", "medium-ethernet", "proto-ipv4"] }
embassy-time = "*"
embassy-usb = "*"
embedded-graphics = "*"
embedded-hal = "1"
embedded-hal-bus = "*"
embedded-io = "0.7"
embedded-sdmmc = { version = "*", default-features = false }
log = "0.4"
mipidsi = "0.9"
nb = "1"
serde = { version = "1", default-features = false, features = ["derive", "alloc"] }
toml = "*"
esp-alloc = "*"
esp-backtrace = { version = "*", features = ["esp32s3", "println", "panic-handler"] }
esp-bootloader-esp-idf = { version = "*", features = ["esp32s3"] }
esp-hal = { version = "*", features = ["esp32s3", "unstable"] }
esp-println = { version = "*", features = ["esp32s3", "log-04"] }
esp-radio = { version = "*", features = ["esp32s3", "wifi", "unstable"] }
esp-rtos = { version = "*", features = ["esp32s3", "esp-radio", "embassy"] }
