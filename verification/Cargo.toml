[package]
name = "invaders"
version = "0.1.0"
edition = "2021"
publish = false

[dependencies]
quad-rand = "*"
macroquad = "0.3"
futures = "0.3"
sapp-jsutils = "*"
