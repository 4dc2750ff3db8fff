[package]
name = "flappy_bevy"
version = "0.1.0"
edition = "2021"
publish = false

[dependencies]
fastrand = "2"
noise = "0.8"
serde = { version = "1", features = ["derive"] }
toml = "0.8"
console_error_panic_hook = "0.1"
