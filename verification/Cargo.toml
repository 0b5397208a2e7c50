[package]
name = "svg_area"
version = "0.1.0"
edition = "2021"
publish = false

[dependencies]
anyhow = "1"
clap = { version = "4", features = ["derive"] }
resvg = "0.41"
tiny-skia = "0.11"
usvg = "0.41"
