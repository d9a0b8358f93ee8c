[package]
name = "emu"
version = "0.2.0"
edition = "2021"
publish = false

[dependencies]
clap = "2"
dirs = "5"
lettre = "0.11"
serde = "1"
serde_derive = "1"
tempfile = "3"
toml = "0.8"
