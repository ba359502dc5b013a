[package]
name = "voxel"
version = "0.1.0"
edition = "2021"
publish = false

[dependencies]
noise = { version = "0.7", default-features = false }
serde = { version = "1", features = ["derive"] }
bincode = "1.3"
