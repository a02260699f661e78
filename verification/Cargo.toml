[package]
name = "dino_runner"
version = "0.1.0"
edition = "2021"
publish = false

[dependencies]
rand = "=0.8.8"
rand_core = "=0.6.4"
bevy_prng = { version = "=0.9.0", features = ["wyrand"] }
bevy_rand = { version = "=0.9.0", features = ["wyrand"] }
bevy = { version = "0.15", default-features = false, features = ["bevy_asset", "bevy_color", "bevy_core_pipeline", "bevy_gizmos", "bevy_render", "bevy_sprite", "bevy_state", "bevy_text", "bevy_ui", "bevy_window", "default_font", "multi_threaded", "png"] }
console_error_panic_hook = "0.1"
wasm-bindgen = "0.2"
