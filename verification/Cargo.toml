[package]
name = "latin_website"
version = "0.1.0"
edition = "2021"
publish = false

[dependencies]
actix-web = { version = "4", default-features = false, features = ["macros", "cookies"] }
argon2 = { version = "0.5", features = ["std"] }
jwt-simple = { version = "0.12", default-features = false, features = ["pure-rust"] }
serde = { version = "1", features = ["derive"] }
dotenv = "0.15"
env_logger = "0.11"
lazy_static = "1.4"
