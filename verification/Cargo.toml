[package]
name = "it8951_video"
version = "0.1.0"
edition = "2021"
publish = false

[dependencies]
rusb = "*"
ctrlc = "*"
