[package]
name = "coco"
version = "0.1.0"
edition = "2021"
publish = false

[dependencies]
clap = { version = "4", features = ["derive"] }
clap-num = "*"
lazy_static = "1"
serde = { version = "1", features = ["derive"] }
serde_yaml = "*"
minifb = "*"
cpal = "*"
spin_sleep = "*"
