[package]
name = "user_store"
version = "0.1.0"
edition = "2021"
publish = false

[dependencies]
actix-web = "*"
serde = { version = "*", features = ["derive"] }
utoipa = "*"
utoipa-swagger-ui = { version = "*", features = ["actix-web", "vendored"] }
