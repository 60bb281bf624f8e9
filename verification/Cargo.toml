[package]
name = "ride_logic"
version = "0.1.0"
edition = "2021"
publish = false

[dependencies]
actix-web = { version = "4", default-features = false, features = ["macros"] }
anyhow = "1"
chrono = "0.4"
diesel = { version = "2", features = ["postgres", "r2d2", "uuid", "serde_json"] }
dotenv = "0.15"
hex = "0.4"
lazy_static = "1"
reqwest = { version = "0.12", default-features = false, features = ["json", "rustls-tls"] }
serde = { version = "1", features = ["derive"] }
serde_json = "1"
sha2 = "0.10"
solana-pubkey = { version = "2", features = ["curve25519"] }
tokio = { version = "1", features = ["sync", "time", "macros", "rt"] }
uuid = { version = "1", features = ["v4", "serde"] }
