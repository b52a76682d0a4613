[package]
name = "postdamn"
version = "0.1.0"
edition = "2021"
publish = false

[dependencies]
axum = "=0.6.20"
bb8 = "=0.8.6"
chrono = { version = "=0.4.45", features = ["serde"] }
diesel = { version = "=2.1.6", default-features = false, features = ["postgres_backend", "chrono", "uuid"] }
diesel-async = { version = "=0.4.1", features = ["postgres", "bb8"] }
diesel_ltree = "=0.3.1"
dotenvy = "=0.15.7"
error-chain = "=0.12.4"
problemdetails = { version = "=0.2.1", features = ["axum"] }
reqwest = { version = "=0.11.27", default-features = false, features = ["rustls-tls"] }
serde = { version = "=1.0.229", features = ["derive"] }
tch = "=0.13.0"
tokio = { version = "=1.54.1", features = ["full"] }
tracing = "=0.1.44"
tracing-subscriber = { version = "=0.3.23", features = ["env-filter"] }
utoipa = { version = "=3.5.0", features = ["axum_extras", "uuid", "chrono"] }
utoipa-swagger-ui = { version = "=3.1.5", features = ["axum"] }
uuid = { version = "=1.29.1", features = ["serde"] }
validator = { version = "=0.16.1", features = ["derive", "phone"] }
