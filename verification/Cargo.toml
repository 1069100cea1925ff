[package]
name = "serve_replica"
version = "0.1.0"
edition = "2021"
publish = false

[dependencies]
indexmap = "2"
actix-web = "4"
clap = { version = "4", features = ["derive", "env"] }
dotenvy = "0.15"
serde = { version = "1", features = ["derive"] }
serde_json = "1"
