[package]
name = "uranx_core"
version = "0.1.0"
edition = "2021"
publish = false

[dependencies]
image = "=0.25.10"
gl = "=0.14.0"
glfw = "=0.63.0"
tobj = "=4.0.5"
toml = "=1.1.7"
serde = { version = "=1.0.229", features = ["derive"] }
rustc_apfloat = "*"
libm = "*"
bytemuck = "*"
