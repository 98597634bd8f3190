[package]
name = "laser_pointer"
version = "0.1.0"
edition = "2021"
publish = false

[dependencies]
clap = { version = "4", features = ["derive"] }
image = "0.24"
serde = { version = "1", features = ["derive"] }
serde_json = "1"
shellexpand = "3"
softbuffer = "0.4"
steamworks = "0.11"
winit = "0.29"
