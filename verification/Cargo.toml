[package]
name = "appshell"
version = "0.1.0"
edition = "2021"
publish = false

[dependencies]
serde_json = "*"
tao = "*"
wry = "*"
