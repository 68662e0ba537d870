[package]
name = "ticket_service"
version = "0.1.0"
edition = "2021"
publish = false

[dependencies]
async-trait = "0.1"
axum = "0.7"
serde = { version = "1", features = ["derive"] }
serde_json = "1"
tokio = { version = "1", features = ["macros", "net", "rt-multi-thread"] }
tower-cookies = "0.10"
tower-http = { version = "0.5", features = ["fs"] }
uuid = { version = "1", features = ["v4"] }

[dev-dependencies]
lazy-regex = "3"
