[package]
name = "circa_backend"
version = "0.1.0"
edition = "2021"
publish = false

[dependencies]
jsonwebtoken = { version = "=11.1.0", default-features = false, features = ["rust_crypto"] }
serde = { version = "=1.0.229", features = ["derive"] }
serde_json = "=1.0.151"
uuid = { version = "=1.27.0", features = ["v7"] }
actix-web = { version = "=4.15.0", default-features = false, features = ["macros"] }
actix-web-httpauth = "=0.8.3"
sea-orm = { version = "=2.0.4", default-features = false, features = ["macros"] }
dotenvy = "=0.15.7"
