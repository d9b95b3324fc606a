[package]
name = "static_pages"
version = "0.1.0"
edition = "2021"
publish = false

[dependencies]
actix-web = "*"
chrono = "*"
env_logger = "*"
mime_guess = "*"
tera = "*"
