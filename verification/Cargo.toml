[package]
name = "ipam"
version = "0.1.0"
edition = "2021"
publish = false

[dependencies]
ipnet = { version = "2", features = ["serde"] }
uuid = { version = "1", features = ["v4", "serde"] }
serde = { version = "1", features = ["derive"] }
serde_json = "1"
axum = "0.7"
tokio = { version = "1", features = ["process", "rt-multi-thread"] }
futures = "0.3"
bcrypt = "0.15"
jsonwebtoken = "9"
time = { version = "0.3", features = ["serde", "formatting", "parsing"] }
sqlx = { version = "0.8", default-features = false, features = ["postgres", "uuid", "derive"] }
