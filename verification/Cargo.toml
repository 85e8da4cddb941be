[package]
name = "yap"
version = "0.1.0"
edition = "2021"
publish = false

[dependencies]
anyhow = "1"
clap = { version = "4", features = ["derive"] }
confy = "*"
diesel = { version = "2", features = ["sqlite", "r2d2"] }
diesel_migrations = "2"
mpd = "*"
reqwest = { version = "*", features = ["blocking"] }
serde = { version = "1", features = ["derive"] }
youtube_dl = "*"
