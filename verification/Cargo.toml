[package]
name = "zombie_shooter"
version = "0.1.0"
edition = "2021"
publish = false

[dependencies]
bevy = { version = "=0.5.0", default-features = false, features = ["render", "bevy_winit", "bevy_wgpu", "png", "x11"] }
cgmath = "=0.18.0"
# bevy's derive crates parse whole items; this turns on syn's `full` feature for them
darling = "0.10"
rand = "=0.8.8"
