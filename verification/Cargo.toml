[package]
name = "bevy_terminal_emu"
version = "0.1.0"
edition = "2021"
publish = false

[dependencies]
ab_glyph = "0.2"
bevy = { version = "0.17", default-features = false, features = ["bevy_asset", "bevy_color", "bevy_render", "bevy_sprite", "bevy_window"] }
ratatui = { version = "*", default-features = false }
terminput = "*"
