[package]
name = "scud_core"
version = "0.1.0"
edition = "2021"
publish = false

[dependencies]
clap = { version = "*", features = ["derive"] }
clearscreen = "*"
colored = "*"
dialoguer = { version = "*", features = ["fuzzy-select"] }
indicatif = "*"
update-informer = "*"
