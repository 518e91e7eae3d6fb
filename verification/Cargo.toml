[package]
name = "jump_chain"
version = "0.1.0"
edition = "2021"
publish = false

[dependencies]
rand = "=0.8.8"
bevy = { version = "=0.16.1", default-features = false, features = ["std", "bevy_asset", "bevy_color", "bevy_core_pipeline", "bevy_pbr", "bevy_render", "bevy_state", "bevy_picking", "bevy_mesh_picking_backend", "bevy_window", "bevy_log", "bevy_gizmos", "tonemapping_luts", "multi_threaded"] }
