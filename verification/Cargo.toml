[package]
name = "mi_api"
version = "0.1.0"
edition = "2021"
publish = false

[dependencies]
actix-web = "4"
serde = { version = "1", features = ["derive"] }
serde_json = "1"
utoipa = "4"
utoipa-swagger-ui = { version = "6", features = ["actix-web"] }
