[package]
name = "transvoxel"
version = "0.1.0"
edition = "2021"
publish = false

[dependencies]
transvoxel-data = "*"

[dev-dependencies]
rand = "=0.8.8"
rand_chacha = "=0.3.1"
noise = "=0.8.2"
