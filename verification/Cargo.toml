[package]
name = "dcbothub"
version = "0.1.0"
edition = "2021"
publish = false

[dependencies]
clap = { version = "4", features = ["derive"] }
git2 = "0.16"
rustyline = "10"
toml = "0.5"
