[package]
name = "simple_game_examples"
version = "0.1.0"
edition = "2021"
publish = false

[dependencies]
image = "0.24"
miniquad = "0.3"
