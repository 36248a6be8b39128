[package]
name = "contour"
version = "0.1.0"
edition = "2021"
publish = false

[dependencies]
bevy = { version = "=0.8.1", default-features = false, features = ["bevy_asset", "bevy_winit", "render", "png", "x11"] }
bevy_ecs_ldtk = { version = "=0.4.0", default-features = false, features = ["derive"] }
bevy_ecs_tilemap = { version = "=0.7.0" }
bevy_egui = { version = "=0.16.1", default-features = false, features = ["default_fonts"] }
bevy-inspector-egui = { version = "=0.13.0", default-features = false }
heron = { version = "=4.3.0", default-features = false, features = ["2d"] }
iyes_loopless = { version = "=0.7.1" }
rand = "=0.8.8"
ron = "=0.7.1"
serde = { version = "1", features = ["derive"] }
serde_json = "1"
