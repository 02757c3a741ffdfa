[package]
name = "broot"
version = "0.1.0"
edition = "2021"
publish = false

[dependencies]
chrono = "=0.4.45"
clap = "=2.34.0"
crossterm = "=0.13.3"
custom_error = "=1.9.2"
opener = "=0.4.1"
regex = "=1.13.1"
termimad = "=0.8.2"
toml = "=0.5.11"
