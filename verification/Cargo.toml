[package]
name = "grillageddon"
version = "0.1.0"
edition = "2021"
publish = false

[dependencies]
libm = "0.2"
macroquad = "0.4"
quad-snd = "*"
rand = "0.8"
