[package]
name = "motorbridge_ros2"
version = "0.1.0"
edition = "2021"
publish = false

[dependencies]
anyhow = "1"
ctrlc = "3"
libloading = "0.8"
mio = "0.6"
rustdds = "0.7"
serde = { version = "1", features = ["derive"] }
serde_json = "1"
serde_yaml = "0.9"
