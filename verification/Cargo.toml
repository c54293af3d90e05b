[package]
name = "leaderboard"
version = "0.1.0"
edition = "2021"
publish = false

[dependencies]
sha2 = "0.10"
serde = { version = "1", features = ["derive"] }
serde_json = "1"
actix-web = { version = "4", default-features = false, features = ["macros"] }
sqlx = { version = "0.8", default-features = false, features = ["postgres", "runtime-tokio", "derive"] }
tokio = { version = "1", features = ["macros", "rt-multi-thread"] }
dotenv = "0.15"
thiserror = "1"
lazy_static = "1"
async-trait = "0.1"
