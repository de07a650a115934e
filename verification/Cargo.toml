[package]
name = "prompt_to_ai"
version = "0.1.0"
edition = "2021"
publish = false

[dependencies]
git2 = { version = "*", default-features = false }
clap = { version = "*", features = ["derive"] }
arboard = { version = "*", default-features = false }
