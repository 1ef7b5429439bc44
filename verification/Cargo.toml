[package]
name = "bab"
version = "0.1.0"
edition = "2021"
publish = false

[dependencies]
vte = "*"
unicode-width = "*"
unicode-segmentation = "*"
unicode-properties = "*"
harfrust = "*"
skrifa = "*"
swash = "*"
etagere = "*"
bytemuck = { version = "*", features = ["derive"] }
pollster = "*"
wgpu = "*"
serde = { version = "*", features = ["derive"] }
toml = "*"
portable-pty = "*"
anyhow = "*"
