[package]
name = "mpris-spotifyd-pifi"
version = "0.1.0"
edition = "2021"
publish = false

[dependencies]
anyhow = "1"
dbus = { version = "0.9", features = ["vendored"] }
env_logger = "0.10"
linux-embedded-hal = { version = "0.4", default-features = false, features = ["gpio_sysfs", "spi"] }
log = "0.4"
mpris = "2.0"
rppal = "0.16"
serde = { version = "1", features = ["derive"] }
ssd1306 = "0.8"
toml = "0.8"
