[package]
name = "guild_quest"
version = "0.1.0"
edition = "2021"
publish = false

[dependencies]
rand = "=0.10.3"
rusqlite = "=0.40.2"
nostr-sdk = "=0.45.4"
nostr = { version = "=0.45.5", features = ["nip04", "os-rng"] }
serde = { version = "=1.0.229", features = ["derive"] }
serde_yaml = "=0.9.34"
dotenv = "=0.15.0"
tokio = { version = "=1.53.2", features = ["rt-multi-thread", "macros"] }
