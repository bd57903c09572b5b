[package]
name = "musical_cars_lib"
version = "0.1.0"
edition = "2021"
publish = false

[dependencies]
rand = "=0.8.8"
bevy = { version = "=0.9.1", default-features = false, features = ["render", "bevy_asset", "bevy_sprite", "bevy_text", "serialize"] }
bevy_ecs_ldtk = "=0.5.0"
nalgebra = "=0.31.4"
bincode = "=1.3.3"
clap = { version = "=4.6.7", features = ["derive"] }
entity-gym-rs = "=0.8.0"
