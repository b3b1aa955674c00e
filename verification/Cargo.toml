[package]
name = "prestoedit"
version = "0.1.0"
edition = "2021"
publish = false

[dependencies]
clap = { version = "=4.6.7", features = ["derive"] }
crossterm = "=0.27.0"
dirs = "=5.0.1"
freetype-rs = "=0.38.0"
glfw = "=0.63.0"
image = "=0.25.10"
json = "=0.12.4"
lazy_static = "=1.5.1"
log = "=0.4.34"
ogl33 = "=0.2.0"
