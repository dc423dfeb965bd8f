[package]
name = "freebies"
version = "0.1.0"
edition = "2021"
publish = false

[dependencies]
clap = { version = "*", features = ["derive"] }
clokwerk = "*"
envmnt = "*"
lettre = "*"
reqwest = { version = "*", features = ["blocking"] }
rss = { version = "*", default-features = false }
