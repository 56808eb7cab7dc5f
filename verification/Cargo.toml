[package]
name = "osms"
version = "0.1.0"
edition = "2021"
publish = false

[dependencies]
chrono = { version = "0.4", default-features = false, features = ["std"] }
xml-rs = "0.8"
serde = { version = "1", features = ["derive"] }
serde_json = "1"
config = { version = "0.13", default-features = false, features = ["toml"] }
postgres = "0.19"
postgis = "*"
geo = "*"
handlebars = "*"
rouille = "*"
r2d2 = "*"
r2d2_postgres = "*"
