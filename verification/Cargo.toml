[package]
name = "bible_headlines"
version = "0.1.0"
edition = "2021"
publish = false

[dependencies]
actix-web = { version = "4", default-features = false, features = ["macros"] }

[dev-dependencies]
serde_json = "1"
