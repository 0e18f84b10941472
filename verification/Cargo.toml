[package]
name = "auth_app"
version = "0.1.0"
edition = "2021"
publish = false

[dependencies]
bcrypt = "*"
cookie = { version = "*", features = ["private"] }
rocket = { version = "*", features = ["secrets"] }
rocket_dyn_templates = { version = "*", features = ["tera"] }
rusqlite = { version = "*", features = ["bundled"] }
