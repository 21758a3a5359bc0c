[package]
name = "smartauth"
version = "0.1.0"
edition = "2021"
publish = false

[dependencies]
rand = "=0.8.8"
rust-argon2 = "=3.0.0"
serde = { version = "=1.0.229", features = ["derive"] }
serde_json = "=1.0.154"
chrono = { version = "=0.4.45", default-features = false, features = ["clock", "std"] }
actix-web = { version = "=4.18.1", default-features = false, features = ["macros", "cookies"] }
diesel = { version = "=1.4.8", default-features = false, features = ["mysql", "chrono", "r2d2"] }
reqwest = { version = "=0.11.27", default-features = false }
lapin = { version = "=2.5.5", default-features = false }
tokio-executor-trait = "=2.4.0"
lettre = "=0.9.6"
lettre_email = "=0.9.4"
tokio = { version = "=1.54.1", features = ["rt-multi-thread", "time", "macros"] }
futures-util = { version = "=0.3.34", default-features = false }
anyhow = "=1.0.104"
log = "=0.4.34"
config = { version = "=0.13.4", default-features = false, features = ["toml"] }
either = { version = "=1.19.0", features = ["serde"] }
actix-cors = "0.7"
