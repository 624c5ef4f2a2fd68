[package]
name = "account_auth"
version = "0.1.0"
edition = "2021"
publish = false

[dependencies]
bcrypt = "0.15"
chrono = { version = "0.4", default-features = false, features = ["clock"] }
jsonwebtoken = { version = "9", default-features = false }
serde_json = { version = "1", features = ["preserve_order"] }
serde = { version = "1", features = ["derive"] }
actix-web = { version = "4", default-features = false, features = ["macros"] }
sqlx = { version = "0.8", default-features = false, features = ["mysql", "runtime-tokio"] }
tokio = { version = "1", features = ["macros", "rt-multi-thread"] }
dotenvy = "0.15"
