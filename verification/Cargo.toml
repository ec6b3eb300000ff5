[package]
name = "sprite_anim"
version = "0.1.0"
edition = "2021"
publish = false

[dependencies]
sdl2 = { version = "*", default-features = false, features = ["image", "ttf"] }
