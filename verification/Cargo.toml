[package]
name = "ticketing"
version = "0.1.0"
edition = "2021"
publish = false

[dependencies]
actix-web = { version = "4", default-features = false, features = ["macros"] }
argon2 = { version = "0.5", features = ["std"] }
chrono = { version = "0.4", default-features = false, features = ["clock", "std", "serde"] }
deadpool-diesel = { version = "0.4", features = ["postgres"] }
diesel = { version = "2", features = ["postgres", "uuid", "chrono", "serde_json"] }
dotenv = "0.15"
either = "1"
env_logger = "0.10"
jsonwebtoken = { version = "9", default-features = false }
lettre = { version = "0.10", default-features = false, features = ["smtp-transport", "builder", "rustls-tls"] }
log = "0.4"
serde = { version = "1", features = ["derive"] }
serde_json = { version = "1", features = ["raw_value"] }
thiserror = "1"
tokio = { version = "1", features = ["rt-multi-thread", "macros", "sync", "time"] }
uuid = { version = "1", features = ["serde", "v4"] }
validator = "0.16"
