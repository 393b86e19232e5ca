[package]
name = "airmon"
version = "0.1.0"
edition = "2021"
publish = false

[dependencies]
anyhow = "1"
embedded-hal = "1"
embedded-svc = "*"
esp-idf-hal = "*"
esp-idf-svc = "*"
esp-idf-sys = "*"
log = "0.4"
scd4x = "*"
serde = { version = "1", features = ["derive"] }
serde_json = "1"
smart-leds-trait = "*"
sntp_request = "*"
time = "0.3"
time-tz = "*"
ws2812-esp32-rmt-driver = "*"
