[package]
name = "sensor_display"
version = "0.1.0"
edition = "2021"
publish = false

[dependencies]
embedded-graphics = "0.8"
ssd1306 = "0.8"
dht-embedded = "*"
esp-idf-hal = "*"
esp-idf-svc = "*"
anyhow = "1"
log = "0.4"
