[package]
name = "wordle"
version = "0.1.0"
edition = "2021"
publish = false

[dependencies]
rand = "0.8"
inquire = "0.3"
termion = "1.5"
thiserror = "1"
