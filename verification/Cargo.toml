[package]
name = "rust_tmpl"
version = "0.1.0"
edition = "2021"
publish = false

[dependencies]
bcrypt = "=0.19.3"
chrono = { version = "=0.4.45", features = ["serde"] }
dotenvy = "=0.15.7"
jsonwebtoken = "=9.3.1"
log = "=0.4.35"
nix = { version = "=0.31.3", features = ["fs"] }
opentelemetry = { version = "=0.33.1", features = ["trace", "metrics"] }
opentelemetry_sdk = { version = "=0.33.1", features = ["trace", "metrics", "rt-tokio"] }
opentelemetry-otlp = { version = "=0.33.1", default-features = false, features = ["trace", "metrics", "http-proto"] }
poem = { version = "=3.1.12", features = ["static-files", "test"] }
poem-openapi = { version = "=5.1.16", features = ["swagger-ui", "redoc", "chrono"] }
secrecy = "=0.10.3"
serde = { version = "=1.0.229", features = ["derive"] }
serde_json = { version = "=1.0.154", features = ["raw_value"] }
sqlx = { version = "=0.8.6", default-features = false, features = ["sqlite", "runtime-tokio", "migrate", "chrono"] }
tokio = { version = "=1.54.1", features = ["macros", "rt-multi-thread", "signal", "time"] }
tracing = "=0.1.44"
tracing-opentelemetry = "=0.34.0"
tracing-subscriber = { version = "=0.3.23", default-features = false, features = ["env-filter", "fmt", "json", "registry", "ansi", "std"] }
