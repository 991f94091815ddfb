[package]
name = "lilygo_display"
version = "0.1.0"
edition = "2021"
publish = false

[dependencies]
embedded-graphics = "0.8"
tinybmp = "0.5"
log = "0.4"
mipidsi = "0.7"
display-interface-spi = "0.4"
esp-idf-hal = "*"
esp-idf-sys = "*"
esp_idf_logger = "*"
