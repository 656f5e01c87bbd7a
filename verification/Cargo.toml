[package]
name = "breakout_rules"
version = "0.1.0"
edition = "2021"
publish = false

[dependencies]
bevy = { version = "=0.17.3", default-features = false, features = ["std", "multi_threaded", "bevy_log", "bevy_state", "bevy_asset", "bevy_color", "bevy_image", "bevy_mesh", "bevy_camera", "bevy_render", "bevy_core_pipeline", "bevy_sprite", "bevy_sprite_render", "bevy_text", "default_font", "bevy_ui", "bevy_ui_render", "bevy_gizmos", "bevy_window", "png"] }
wasm-bindgen = "=0.2.130"
js-sys = "=0.3.107"
web-sys = { version = "=0.3.107", features = ["Window", "Event", "EventTarget", "CustomEvent", "CustomEventInit"] }
