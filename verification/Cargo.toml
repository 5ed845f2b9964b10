[package]
name = "realworld_auth"
version = "0.1.0"
edition = "2021"
publish = false

[dependencies]
bcrypt = "*"
chrono = { version = "0.4", features = ["serde"] }
jsonwebtoken = { version = "10", default-features = false, features = ["rust_crypto"] }
serde_json = { version = "1", features = ["preserve_order"] }
uuid = { version = "1", features = ["v4", "serde"] }
validator = "*"
askama = "*"
async-trait = "*"
axum = { version = "0.8", features = ["macros"] }
displaydoc = "*"
dotenvy = "*"
lettre = "0.11"
opentelemetry = "*"
opentelemetry-appender-tracing = "*"
opentelemetry-otlp = { version = "*", default-features = false, features = ["grpc-tonic", "trace", "logs", "metrics"] }
opentelemetry_sdk = { version = "*", features = ["rt-tokio"] }
pretty-error-debug = "*"
serde = { version = "1", features = ["derive"] }
smallvec = "1"
sqlx = { version = "0.8", default-features = false, features = ["runtime-tokio", "postgres", "uuid", "chrono", "migrate", "derive"] }
strum = { version = "*", features = ["derive"] }
thiserror = "*"
tokio = { version = "1", features = ["macros", "rt-multi-thread", "net"] }
tonic = "*"
tower = { version = "*", features = ["timeout"] }
tower-http = { version = "*", features = ["compression-br", "compression-gzip", "cors", "sensitive-headers", "trace"] }
tracing = "0.1"
tracing-error = "*"
tracing-opentelemetry = "*"
tracing-subscriber = { version = "*", features = ["env-filter"] }
