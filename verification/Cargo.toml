[package]
name = "sitegen"
version = "0.1.0"
edition = "2021"
publish = false

[dependencies]
chrono = { version = "=0.4.45", default-features = false, features = ["std"] }
comrak = { version = "=0.18.0", default-features = false }
grass = { version = "=0.13.4", default-features = false }
handlebars = "=3.5.5"
notify = "=4.0.18"
toml = "=0.5.11"
