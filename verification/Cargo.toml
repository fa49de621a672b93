[package]
name = "carte_etoile"
version = "0.1.0"
edition = "2021"
publish = false

[dependencies]
a2 = "=0.10.0"
aide = { version = "=0.13.5", features = ["axum", "redoc", "scalar"] }
axum = "=0.7.9"
axum-extra = { version = "=0.9.6", features = ["typed-header"] }
chrono = { version = "=0.4.45", features = ["serde"] }
dotenvy = "=0.15.7"
envy = "=0.4.2"
futures = "=0.3.34"
image = { version = "=0.25.10", default-features = false, features = ["png"] }
oidc-jwt-validator = "=0.2.3"
openssl = "=0.10.81"
passes = "=1.0.1"
reqwest = { version = "=0.11.27", default-features = false }
schemars = "=0.8.22"
serde = { version = "=1.0.229", features = ["derive"] }
serde_json = "=1.0.154"
sqlx = { version = "=0.8.6", default-features = false, features = ["postgres", "runtime-tokio", "chrono", "migrate"] }
tokio = { version = "=1.54.1", features = ["macros", "rt-multi-thread", "net"] }
tokio-util = { version = "=0.7.20", features = ["io"] }
tower = "=0.5.3"
tower-http = { version = "=0.6.11", features = ["cors", "trace"] }
tracing = "=0.1.44"
tracing-panic = "=0.1.3"
tracing-subscriber = { version = "=0.3.23", features = ["env-filter"] }
uuid = { version = "=1.29.0", features = ["v7"] }
