[package]
name = "headset_battery"
version = "0.1.0"
edition = "2021"
publish = false

[dependencies]
hidapi = { version = "2.6", default-features = false, features = ["linux-native-basic-udev"] }
serde = { version = "1", features = ["derive"] }
serde_json = "1"
