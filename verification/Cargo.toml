[package]
name = "basita"
version = "0.1.0"
edition = "2021"
publish = false

[dependencies]
sdl2 = { version = "*", features = ["image", "mixer", "ttf"] }
specs = "*"
serde = { version = "*", features = ["derive"] }
serde_derive = "*"
serde_json = "*"
uuid = "*"
