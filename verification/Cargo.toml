[package]
name = "dsh_frontend"
version = "0.1.0"
edition = "2021"
publish = false

[dependencies]
neovision-core = { version = "=1.1.0", features = ["font"] }
bevy = { version = "=0.19.1", default-features = false, features = ["std", "async_executor", "multi_threaded", "bevy_asset", "default_font", "2d_bevy_render", "ui_bevy_render"] }
