[package]
name = "blog_web"
version = "0.1.0"
edition = "2021"
publish = false

[dependencies]
argon2 = { version = "0.5", features = ["std"] }
scraper = { version = "0.20", default-features = false }
serde = { version = "1", features = ["derive"] }
serde_json = "1"
chrono = { version = "0.4", default-features = false, features = ["serde", "std"] }
rocket = { version = "0.5", default-features = false, features = ["secrets"] }
rocket_dyn_templates = { version = "0.2", features = ["minijinja"] }
diesel = { version = "2", features = ["mysql_backend", "chrono"] }
