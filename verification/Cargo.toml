[package]
name = "proext"
version = "0.1.0"
edition = "2021"
publish = false

[dependencies]
md5 = "0.7"
serde = { version = "1", features = ["derive"] }
serde_json = "1"
directories = "5"
ureq = "2"
rand = "0.8"
mint = "0.5"
lazy_static = "1"
colored = "2"
mki = "0.2"
discord-rpc-client = "*"
open = "5"
imgui = "0.11"
imgui-glow-renderer = "0.11"
imgui-winit-support = "0.11"
glutin = "0.29"
glow = "0.12"
