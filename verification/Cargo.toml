[package]
name = "rusty-response-api"
version = "0.1.0"
edition = "2021"
publish = false

[dependencies]
async-trait = "=0.1.92"
axum = "=0.8.9"
bcrypt = "=0.19.3"
config = { version = "=0.15.27", default-features = false, features = ["toml", "convert-case"] }
discord-webhook2 = "=0.4.3"
eyre = "=0.6.14"
frankenstein = { version = "=0.52.1", features = ["client-reqwest"] }
handlebars = "=6.4.4"
jsonwebtoken = "=9.3.1"
reqwest = "=0.12.28"
serde = { version = "=1.0.229", features = ["derive"] }
serde_json = "=1.0.154"
sqlx = { version = "=0.8.6", features = ["sqlite", "runtime-tokio", "time", "json"] }
time = { version = "=0.3.55", features = ["serde"] }
tokio = { version = "=1.54.1", features = ["full"] }
tokio-util = "=0.7.20"
tower-cookies = "=0.11.0"
tower-http = { version = "=0.7.1", features = ["cors"] }
tracing = "=0.1.44"
tracing-error = "=0.2.1"
tracing-subscriber = { version = "=0.3.23", features = ["env-filter"] }
utoipa = "=6.0.0"
utoipa-swagger-ui = { version = "*", features = ["axum", "vendored"] }
