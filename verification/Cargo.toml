[package]
name = "print_price_evaluator"
version = "0.1.0"
edition = "2021"
publish = false

[dependencies]
actix = "*"
actix-files = "*"
actix-web = "*"
actix-web-actors = "*"
bytes = "*"
chrono = "*"
clap = { version = "*", features = ["derive"] }
rusqlite = { version = "*", features = ["bundled"] }
serde = { version = "*", features = ["derive"] }
serde_json = "*"
