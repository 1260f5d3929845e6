[package]
name = "wikipedia_tui"
version = "0.1.0"
edition = "2021"
publish = false

[dependencies]
reqwest = { version = "0.11", default-features = false, features = ["blocking"] }
crossterm = "0.17"
tui = { version = "0.9", default-features = false, features = ["crossterm"] }
