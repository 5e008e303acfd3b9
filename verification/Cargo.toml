[package]
name = "wifiqr"
version = "0.1.0"
edition = "2021"
publish = false

[dependencies]
bardecoder = "=0.5.0"
icy_sixel = "=0.1.3"
image = "=0.24.9"
nokhwa = { version = "=0.10.11", features = ["input-native"] }
percent-encoding = "=2.3.2"
rqrr = "=0.11.0"
shlex = "=1.3.0"
