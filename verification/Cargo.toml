[package]
name = "triangle_core"
version = "0.1.0"
edition = "2021"
publish = false

[dependencies]
rtrb = "=0.4.0"
glow = "=0.18.0"
baseview = { version = "=0.3.6", features = ["opengl"] }
