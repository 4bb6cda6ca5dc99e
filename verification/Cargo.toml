[package]
name = "xgameruntime"
version = "0.1.0"
edition = "2021"
publish = false

[dependencies]
windows-core = "*"
windows-sys = "*"
