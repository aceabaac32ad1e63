[package]
name = "raycast_shooter"
version = "0.1.0"
edition = "2021"
publish = false

[dependencies]
geo = "=0.33.1"
macroquad = { version = "=0.4.16", features = ["audio"] }
rayon = "=1.12.0"
serde = { version = "=1.0.229", features = ["derive"] }
serde_json = "=1.0.154"

[dev-dependencies]
glam = "=0.27.0"
