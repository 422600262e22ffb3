[package]
name = "invaders_core"
version = "0.1.0"
edition = "2021"
publish = false

[dependencies]
crossterm = "=0.29.0"
rusty_audio = "=1.4.1"
rusty_time = "=1.1.0"
