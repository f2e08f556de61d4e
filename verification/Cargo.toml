[package]
name = "auto_clicker"
version = "0.1.0"
edition = "2021"
publish = false

[dependencies]
enigo = "0.1.3"
iced = { version = "0.10.0", default-features = false }
rdev = "0.5.3"
