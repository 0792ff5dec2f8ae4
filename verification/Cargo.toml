[package]
name = "shader_binding"
version = "0.1.0"
edition = "2021"
publish = false

[dependencies]
gl = "0.14"
image = "0.22"
rand = "0.4"
regex = "1"
specs = "*"
uuid = { version = "0.8", features = ["v4"] }
