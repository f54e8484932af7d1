[package]
name = "player_handlers"
version = "0.1.0"
edition = "2021"
publish = false

[dependencies]
termion = "=1.5.6"
rspotify = "0.6"
