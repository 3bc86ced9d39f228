[package]
name = "aiwinamp"
version = "0.1.0"
edition = "2021"
publish = false

[dependencies]
anyhow = "1"
parking_lot = "0.12"
rand = "0.8"
rodio = { version = "0.17", default-features = false, features = ["wav", "flac", "vorbis"] }
serde = { version = "1", features = ["derive"] }
symphonia = { version = "0.5", features = ["mp3", "aac", "isomp4"] }
