[package]
name = "material_animation"
version = "0.1.0"
edition = "2021"
publish = false

[dependencies]
fnv = "=1.0.7"
minterpolate = "=0.4.0"
amethyst_assets = "=0.15.3"
amethyst_core = "=0.15.3"
serde = { version = "=1.0.229", features = ["derive"] }
