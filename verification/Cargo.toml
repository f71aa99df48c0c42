[package]
name = "backend_core"
version = "0.1.0"
edition = "2021"
publish = false

[dependencies]
time = { version = "=0.3.55", features = ["formatting", "parsing", "serde", "macros"] }
uuid = { version = "=1.29.0", features = ["serde"] }
serde = { version = "=1.0.229", features = ["derive"] }
serde_json = "=1.0.154"
thiserror = "=2.0.21"
async-trait = "=0.1.92"
axum = "=0.8.9"
tokio = { version = "=1.54.1", features = ["macros", "rt-multi-thread", "net"] }
tower-http = { version = "=0.6.11", features = ["cors", "trace"] }
sqlx = { version = "=0.8.6", default-features = false, features = ["runtime-tokio", "postgres", "time", "uuid", "json"] }
lapin = { version = "=2.5.5", default-features = false }
futures-lite = "=2.6.1"
jsonwebtoken = "=9.3.1"
base64 = "=0.22.1"
tracing = "=0.1.44"
tracing-subscriber = { version = "=0.3.23", features = ["env-filter", "fmt"] }
dotenvy = "=0.15.7"
