[package]
name = "snake_rust"
version = "0.1.0"
edition = "2021"
publish = false

[dependencies]
nalgebra = "0.32"
rand = "0.8"
ncurses = "5"
