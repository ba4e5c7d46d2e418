[package]
name = "ai_gateway"
version = "0.1.0"
edition = "2021"
publish = false

[dependencies]
age = { version = "=0.10.1", features = ["armor"] }
regorus = { version = "=0.5.0", default-features = false, features = ["arc", "std", "regex", "glob", "base64", "base64url", "hex", "semver", "graph", "opa-runtime", "coverage", "http", "net", "urlquery"] }
serde = { version = "=1.0.229", features = ["derive"] }
serde_json = "=1.0.154"
tokio = { version = "=1.54.1", features = ["full"] }
axum = { version = "=0.7.9", features = ["ws"] }
tower = "=0.4.13"
tower-http = { version = "=0.5.2", features = ["trace"] }
clap = { version = "=4.6.7", features = ["derive"] }
indicatif = "=0.17.11"
jsonwebtoken = { version = "=9.3.1", default-features = false }
lopdf = { version = "=0.32.0", default-features = false, features = ["nom_parser"] }
redis = { version = "=0.27.6", default-features = false, features = ["tokio-comp", "connection-manager"] }
reqwest = { version = "=0.12.28", default-features = false }
uuid = { version = "=1.29.0", features = ["v4"] }
ureq = { version = "=2.12.1", default-features = false }
urlencoding = "=2.1.3"
tracing = "=0.1.44"
tracing-subscriber = { version = "=0.3.23", features = ["env-filter"] }
once_cell = "=1.21.4"
async-trait = "=0.1.92"
futures-util = "=0.3.34"
config = { version = "=0.14.1", default-features = false, features = ["toml"] }
tokio-postgres = "=0.7.18"
rusqlite = { version = "=0.41.1", features = ["bundled"] }
opentelemetry = "=0.28.0"
opentelemetry_sdk = "=0.28.0"
tracing-opentelemetry = "=0.29.0"
