[package]
name = "rj"
version = "0.1.0"
edition = "2021"
publish = false

[dependencies]
anyhow = "1"
chrono = "0.4"
clap = "2"
difference = "2"
indexmap = { version = "1", features = ["serde-1"] }
indicatif = "0.15"
log = "0.4"
rand = "0.7"
regex = "1"
reqwest = { version = "0.11", default-features = false, features = ["blocking"] }
serde = { version = "1", features = ["derive"] }
simplelog = "0.7"
tar = "0.4"
text_io = "0.1"
toml = "0.5"
xz2 = "0.1"
