[package]
name = "saddle_interaction"
version = "0.1.0"
edition = "2021"
publish = false

[dependencies]
bevy = { version = "0.17", default-features = false, features = ["bevy_picking", "bevy_gizmos", "bevy_color", "bevy_log"] }
