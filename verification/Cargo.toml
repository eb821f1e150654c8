[package]
name = "backend"
version = "0.1.0"
edition = "2021"
publish = false

[dependencies]
hmac = "=0.13.0"
sha2 = "=0.11.1"
hex = "=0.4.3"
subtle = "=2.6.1"
chrono = { version = "=0.4.45", default-features = false, features = ["clock", "std"] }
serde = { version = "=1.0.229", features = ["derive"] }
serde_json = "=1.0.154"
serde_qs = "=1.1.3"
actix-web = "=4.18.1"
actix-cors = "=0.7.2"
reqwest = { version = "=0.13.5", default-features = false, features = ["json"] }
sqlx = { version = "=0.9.0", default-features = false, features = ["postgres", "runtime-tokio", "migrate", "chrono"] }
pgvector = { version = "=0.4.2", features = ["sqlx"] }
tokio = { version = "=1.54.1", features = ["full"] }
tokio-stream = "=0.1.19"
async-stream = "=0.3.6"
async-trait = "=0.1.92"
bytes = "=1.12.1"
futures = "=0.3.34"
dotenvy = "=0.15.7"
tracing = "=0.1.44"
tracing-subscriber = { version = "=0.3.23", features = ["env-filter"] }
thiserror = "=2.0.21"
genai = "=0.7.2"
