[package]
name = "pin"
version = "0.1.0"
edition = "2021"

[dependencies]
bincode = "=2.0.1"
crossterm = "=0.29.0"
prettytable-rs = { version = "=0.10.0", default-features = false }
