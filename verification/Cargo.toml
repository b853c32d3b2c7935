[package]
name = "music_tool"
version = "0.1.0"
edition = "2021"
publish = false

[dependencies]
uuid = { version = "*", features = ["v4"] }
hound = "*"
rustfft = "*"
num-complex = "*"
ndarray = "*"
ndarray-linalg = "*"
symphonia = { version = "*", features = ["mp3"] }
