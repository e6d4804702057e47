[package]
name = "neko"
version = "0.1.0"
edition = "2021"
publish = false

[dependencies]
bevy = { version = "=0.18.1", default-features = false, features = ["std", "multi_threaded", "async_executor", "bevy_log", "bevy_asset", "bevy_window", "bevy_winit", "x11", "bevy_render", "bevy_core_pipeline", "bevy_image", "png", "bevy_sprite", "bevy_sprite_render", "mouse", "keyboard"] }
x11rb = "=0.13.2"
windows-sys = { version = "=0.59.0", features = ["Win32_Foundation", "Win32_Graphics_Gdi", "Win32_UI_WindowsAndMessaging"] }
core-graphics = "=0.24.0"
