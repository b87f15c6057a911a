[package]
name = "tml"
version = "0.1.0"
edition = "2021"
publish = false

[dependencies]
fractional_index = "=2.0.2"
hex = "=0.4.3"
serde_json = "=1.0.154"
serde = { version = "=1.0.229", features = ["derive"] }
thiserror = "=2.0.21"
uuid = { version = "=1.29.0", features = ["v4", "serde"] }
chrono = { version = "=0.4.45", default-features = false, features = ["std", "clock", "serde"] }
async-trait = "=0.1.92"
futures = "=0.3.34"
tracing = "=0.1.44"
tokio = { version = "=1.54.1", default-features = false, features = ["rt", "sync", "macros"] }
tokio-stream = "=0.1.19"
walkdir = "=2.5.0"
lofty = "=0.25.5"
moka = { version = "=0.12.16", features = ["future"] }
jsonwebtoken = "=9.3.1"
sea-orm = { version = "=2.0.4", default-features = false, features = ["macros", "with-chrono", "with-json", "with-uuid", "postgres-array"] }
sea-orm-migration = { version = "=2.0.4", default-features = false }
meilisearch-sdk = { version = "=0.33.0", default-features = false }
