[package]
name = "rustberry"
version = "0.1.0"
edition = "2021"
publish = false

[dependencies]
base64 = "=0.13.1"
fxhash = "=0.2.1"
crossbeam-channel = "=0.5.17"
serde = { version = "=1.0.229", features = ["derive"] }
serde_json = "=1.0.154"
envy = "=0.4.2"
failure = "=0.1.8"
reqwest = { version = "=0.12.28", default-features = false, features = ["blocking", "json", "rustls-tls", "stream"] }
futures = "=0.3.34"
bytes = "=1.12.1"
tokio = { version = "=1.54.1", features = ["rt-multi-thread"] }
slog = "=2.8.2"
slog-scope = "=4.4.1"
slog-term = "=2.9.2"
slog-async = "=2.8.0"
gpio-cdev = "=0.6.0"
spidev = "=0.6.1"
sysfs_gpio = "=0.6.2"
signal-hook = "=0.3.18"
dialoguer = "=0.11.0"
rfid-rs = "=0.2.1"
embedded-hal = "=0.2.7"
rodio = "=0.23.0"
