[package]
name = "xiaomi"
version = "0.1.0"
edition = "2021"
publish = false

[dependencies]
chrono = "0.4"
chrono-tz = "0.10"
clap = { version = "4", features = ["derive"] }
console = "0.15"
indicatif = "0.17"
prettytable-rs = "0.10"
serde = { version = "1", features = ["derive"] }
toml = "0.8"
windows = { version = "0.48", features = ["Devices_Bluetooth_Advertisement", "Devices_Bluetooth_GenericAttributeProfile", "Foundation", "Foundation_Collections", "Storage_Streams"] }
