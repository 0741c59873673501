[package]
name = "discord_components"
version = "0.1.0"
edition = "2021"
publish = false

[dependencies]
anyhow = "*"
clap = "*"
mdbook = { version = "=0.4.36", default-features = false }
oxhttp = "=0.1.7"
pulldown-cmark = "=0.9.6"
pulldown-cmark-to-cmark = "=11.2.0"
serde = { version = "*", features = ["derive"] }
serde-aux = "*"
serde_json = "*"
serde_yaml = "*"
