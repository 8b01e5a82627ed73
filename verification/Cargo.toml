[package]
name = "ds_battery"
version = "0.1.0"
edition = "2021"
publish = false

[dependencies]
anyhow = "1"
clap = { version = "4", features = ["derive"] }
hidapi = { version = "2", default-features = false, features = ["linux-native-basic-udev"] }
iced = { version = "0.12", default-features = false }
