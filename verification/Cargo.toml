[package]
name = "penumbra-explorer"
version = "0.1.0"
edition = "2021"
publish = false

[dependencies]
anyhow = "1"
async-graphql = { version = "7", features = ["chrono"] }
chrono = "0.4"
diesel = { version = "2", default-features = false, features = ["postgres_backend"] }
hex = "0.4"
serde_json = "1"
sqlx = { version = "0.8", default-features = false, features = ["runtime-tokio", "postgres", "chrono", "derive"] }
tokio = { version = "1", features = ["sync", "rt", "macros"] }
tracing = "0.1"
