[package]
name = "minecrust"
version = "0.1.0"
edition = "2021"
publish = false

[dependencies]
cgmath = "0.18"
gl = "0.14"
glfw = "0.42"
image = "0.25"
lazy_static = "1.4"
noise = "0.8"
strsim = "*"
strum = "*"
strum_macros = "*"
tokio = { version = "1", features = ["rt-multi-thread", "macros", "sync"] }
