[package]
name = "mdpages"
version = "0.1.0"
edition = "2021"
publish = false

[dependencies]
askama = "0.16"
axum = "=0.6.20"
markdown = "=1.0.0"
tokio = { version = "=1.54.1", features = ["macros", "rt-multi-thread"] }
tower-http = { version = "=0.4.4", features = ["fs"] }

[dev-dependencies]
tower-service = "=0.3.3"
