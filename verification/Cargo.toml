[package]
name = "markdown_transformer"
version = "0.1.0"
edition = "2021"
publish = false

[dependencies]
actix-files = "=0.2.2"
actix-http = "=1.0.1"
actix-rt = "=1.1.1"
actix-service = "=1.0.6"
actix-web = "=2.0.0"
bytes = "=0.5.6"
chrono = "=0.4.19"
env_logger = "=0.7.1"
futures = "=0.3.34"
pin-project = "=0.4.30"
pulldown-cmark = { version = "=0.7.2", default-features = false }
