[package]
name = "storefront"
version = "0.1.0"
edition = "2021"
publish = false

[dependencies]
async-trait = "=0.1.92"
axum = { version = "=0.5.17", features = ["headers"] }
axum-extra = { version = "=0.3.7", features = ["spa"] }
bcrypt = "=0.13.0"
borsh = "=0.10.4"
chrono = "=0.4.45"
config = { version = "=0.13.4", default-features = false, features = ["toml"] }
dotenv = "=0.15.0"
getrandom = "=0.4.3"
hmac = "=0.12.1"
hyper = { version = "=0.14.32", features = ["full"] }
jsonwebtoken = "=8.3.0"
jwt = "=0.16.0"
lapin = { version = "=2.5.5", default-features = false }
lazy_static = "=1.5.1"
sea-orm = { version = "=0.9.3", default-features = false, features = ["sqlx-mysql", "runtime-tokio-rustls", "macros"] }
sea-orm-migration = { version = "=0.9.3", default-features = false }
serde = { version = "=1.0.229", features = ["derive"] }
serde_json = { version = "=1.0.154", features = ["preserve_order"] }
sha2 = "=0.10.9"
thiserror = "=1.0.69"
tokio = { version = "=1.54.1", features = ["full"] }
tokio-executor-trait = "=2.4.0"
tokio-reactor-trait = "=1.1.0"
tower-http = { version = "=0.3.5", features = ["trace", "fs"] }
tracing = "=0.1.44"
tracing-subscriber = "=0.3.23"
uuid = { version = "=1.29.0", features = ["v4"] }
validator = "=0.16.1"
