[package]
name = "grid_map"
version = "0.1.0"
edition = "2021"
publish = false

[dependencies]
bevy = { version = "=0.17.3", default-features = false, features = ["std", "bevy_asset", "bevy_camera", "bevy_color", "bevy_log", "bevy_mesh", "bevy_mesh_picking_backend", "bevy_window"] }
bevy_egui = { version = "=0.37.1", default-features = false }
csv = "=1.4.0"
derive_more = { version = "=2.1.1", features = ["display"] }
egui = { version = "=0.32.3", default-features = false }
enum2egui = "=0.32.2"
rand = "=0.9.5"
serde = { version = "=1.0.229", features = ["derive"] }
serde_json = "=1.0.154"
