[package]
name = "mqtt_sweep"
version = "0.1.0"
edition = "2021"
publish = false

[dependencies]
chrono = "=0.4.45"
java-properties = "=2.0.0"
paho-mqtt = { version = "=0.14.0", default-features = false }
regex = "=1.13.1"
slog = "=2.8.2"
slog-async = "=2.8.0"
slog-json = "=2.6.1"
slog-term = "=2.9.2"
