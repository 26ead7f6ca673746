[package]
name = "djoc"
version = "0.1.0"
edition = "2021"
publish = false

[dependencies]
jotdown = "*"
katex = "*"
chrono = { version = "0.4", features = ["unstable-locales"] }
rayon = "*"
serde = { version = "1", features = ["derive"] }
toml = "*"
clap = { version = "4", features = ["derive"] }
log = "*"
