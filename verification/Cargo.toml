[package]
name = "astrodyn"
version = "0.1.0"
edition = "2021"
publish = false

[dependencies]
lambert-bate = "*"
plotters = { version = "=0.3.7", default-features = false, features = ["bitmap_backend", "bitmap_encoder", "all_series", "all_elements"] }
