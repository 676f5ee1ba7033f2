[package]
name = "snowfall"
version = "0.1.0"
edition = "2021"
publish = false

[dependencies]
rand = "=0.8.5"
rand_chacha = "=0.3.1"
flate2 = "=1.1.10"
line_drawing = "=1.0.1"
pathfinding = "=4.16.0"
serde = { version = "=1.0.229", features = ["derive"] }
serde_json = "1"
image = "=0.25.10"
