[package]
name = "cosmic_audio_bg"
version = "0.1.0"
edition = "2021"
publish = false

[dependencies]
anyhow = "1"
bytemuck = { version = "1", features = ["derive"] }
clap = { version = "4", features = ["derive"] }
dirs = "5"
image = { version = "0.25", default-features = false }
libpulse-binding = "2"
libpulse-simple-binding = "2"
pollster = "0.3"
ron = "0.8"
rustfft = "6"
serde = { version = "1", features = ["derive"] }
smithay-client-toolkit = "0.19"
tracing = "0.1"
tracing-subscriber = { version = "0.3", features = ["env-filter"] }
wgpu = { version = "22", default-features = false, features = ["wgsl"] }
