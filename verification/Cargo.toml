[package]
name = "meowspace"
version = "0.1.0"
edition = "2021"
publish = false

[dependencies]
rust-crypto = "0.2"
chrono = "0.4"
serde = { version = "1", features = ["derive"] }
serde_json = "1"
rocket = "0.4"
rocket_contrib = { version = "0.4", default-features = false, features = ["json", "diesel_postgres_pool"] }
rocket_cors = "0.5"
diesel = { version = "1.4", features = ["postgres"] }
dotenv = "0.15"
validator = "0.8"
validator_derive = "0.8"
