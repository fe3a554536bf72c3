[package]
name = "fitness_challenges"
version = "0.1.0"
edition = "2021"
publish = false

[dependencies]
anchor-lang = { version = "0.28.0", features = ["init-if-needed"] }
