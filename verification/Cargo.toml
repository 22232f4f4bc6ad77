[package]
name = "quad_nakama"
version = "0.1.0"
edition = "2021"
publish = false

[dependencies]
nanoserde = "=0.2.1"
sapp-jsutils = "=0.1.7"
lazy_static = "=1.5.1"
