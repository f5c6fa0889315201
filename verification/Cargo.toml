[package]
name = "gfni_tower"
version = "0.1.0"
edition = "2021"
publish = false

[dependencies]
subtle = "2"
rand = "0.8"
bytemuck = "1"
