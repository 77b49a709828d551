[package]
name = "whack_cat"
version = "0.1.0"
edition = "2021"
publish = false

[dependencies]
bevy = { version = "=0.5.0", default-features = false, features = ["bevy_winit", "render", "png", "x11"] }
bevy_core = "=0.5.0"
bevy_ecs = "=0.5.0"
bevy_webgl2 = "=0.5.2"
rand = "=0.8.8"
wasm-bindgen = "=0.2.69"
