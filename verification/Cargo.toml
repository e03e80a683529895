[package]
name = "shop_api"
version = "0.1.0"
edition = "2021"
publish = false

[dependencies]
actix-web = { version = "4", default-features = false, features = ["macros"] }
async-trait = "0.1"
dotenv = "0.15"
postgres = "0.19"
sea-orm = { version = "1", default-features = false, features = ["macros", "with-uuid", "with-json", "sqlx-postgres", "runtime-tokio"] }
sea-orm-migration = { version = "1", default-features = false, features = ["sqlx-postgres", "runtime-tokio"] }
serde = { version = "1", features = ["derive"] }
serde_json = "1"
tokio = { version = "1", features = ["macros", "rt-multi-thread"] }
uuid = { version = "1", features = ["v4"] }
