[package]
name = "social_graph"
version = "0.1.0"
edition = "2021"
publish = false

[dependencies]
actix-web = { version = "4", default-features = false, features = ["macros"] }
bcrypt = "*"
chrono = { version = "0.4", features = ["serde"] }
deadpool-diesel = { version = "*", features = ["postgres"] }
diesel = { version = "2", default-features = false, features = ["postgres", "uuid", "chrono"] }
dotenvy = "0.15"
env_logger = "*"
jsonwebtoken = "9"
serde = { version = "1", features = ["derive"] }
serde_json = { version = "1", features = ["preserve_order"] }
uuid = { version = "1", features = ["v4", "serde"] }
validator = { version = "*", features = ["derive"] }
