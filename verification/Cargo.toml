[package]
name = "summer-sa-token"
version = "0.1.0"
edition = "2021"
publish = false

[dependencies]
serde = { version = "=1.0.229", features = ["derive"] }
schemars = "=1.2.3"
sa-token-core = "=0.1.18"
sa-token-adapter = "=0.1.18"
summer = "=0.7.2"
summer-redis = "=0.7.1"
spring = "=0.4.8"
spring-web = "=0.4.17"
utoipa = "=6.0.0"
