[package]
name = "math_render"
version = "0.1.0"
edition = "2021"
publish = false

[dependencies]
resvg = "=0.35.0"
usvg = "=0.35.0"
png = "=0.17.16"
mathjax_svg = "=1.0.1"
axum = "=0.6.20"
tokio = { version = "=1.53.2", features = ["macros", "rt-multi-thread"] }
serde = { version = "=1.0.229", features = ["derive"] }
